//! Bytecode instructions, their operands and their encoding.
//!
//! An instruction is encoded as the byte of its operation, its word operands in
//! order, four bytes each with the least significant byte first, and last its
//! immediate, if it has one. A jump puts its address before its registers.

use vstd::prelude::*;

use crate::little_endian::{
    le_bytes, le_bytes_len, le_bytes_of_le_value, le_value, le_value_of_le_bytes, pow256,
    pow256_values, read_le, write_le,
};
use crate::opcode::{opcode_bytes_are_distinct, Opcode};

verus! {

/// A decoded instruction.
///
/// Registers, addresses, indices and counts are words. Floating-point
/// immediates are kept as their bits.
#[allow(inconsistent_fields)]
#[derive(Clone, Copy, Debug, PartialEq, Eq, Structural)]
pub enum Instruction {
    // Data movement and constants
    Move { dst: u32, src: u32 },
    StoreZero { dst: u32 },
    StoreOne { dst: u32 },
    StoreInt8 { dst: u32, value: i8 },
    StoreInt16 { dst: u32, value: i16 },
    StoreInt32 { dst: u32, value: i32 },
    StoreFloat { dst: u32, bits: u32 },
    StoreDouble { dst: u32, bits: u64 },
    StoreNan { dst: u32 },
    StorePositiveInfinity { dst: u32 },
    StoreNegativeInfinity { dst: u32 },
    StoreNull { dst: u32 },
    StoreTrue { dst: u32 },
    StoreFalse { dst: u32 },
    StoreUndefined { dst: u32 },
    GetArgument { index: u32, dst: u32 },
    This { dst: u32 },
    // Stack and accumulator
    SetAccumulator { src: u32 },
    PushFromRegister { src: u32 },
    PopIntoRegister { dst: u32 },
    Pop,
    // Arithmetic
    Add { dst: u32, lhs: u32, rhs: u32 },
    Sub { dst: u32, lhs: u32, rhs: u32 },
    Mul { dst: u32, lhs: u32, rhs: u32 },
    Div { dst: u32, lhs: u32, rhs: u32 },
    Mod { dst: u32, lhs: u32, rhs: u32 },
    Pow { dst: u32, lhs: u32, rhs: u32 },
    Neg { value: u32 },
    Pos { value: u32 },
    Inc { dst: u32, src: u32 },
    Dec { dst: u32, src: u32 },
    // Bitwise operators
    BitOr { dst: u32, lhs: u32, rhs: u32 },
    BitAnd { dst: u32, lhs: u32, rhs: u32 },
    BitXor { dst: u32, lhs: u32, rhs: u32 },
    BitNot { value: u32 },
    ShiftLeft { dst: u32, lhs: u32, rhs: u32 },
    ShiftRight { dst: u32, lhs: u32, rhs: u32 },
    UnsignedShiftRight { dst: u32, lhs: u32, rhs: u32 },
    // Comparison
    StrictEq { dst: u32, lhs: u32, rhs: u32 },
    StrictNotEq { dst: u32, lhs: u32, rhs: u32 },
    Eq { dst: u32, lhs: u32, rhs: u32 },
    NotEq { dst: u32, lhs: u32, rhs: u32 },
    GreaterThan { dst: u32, lhs: u32, rhs: u32 },
    GreaterThanOrEq { dst: u32, lhs: u32, rhs: u32 },
    LessThan { dst: u32, lhs: u32, rhs: u32 },
    LessThanOrEq { dst: u32, lhs: u32, rhs: u32 },
    InstanceOf { dst: u32, lhs: u32, rhs: u32 },
    // Type checks
    TypeOf { value: u32 },
    IsObject { value: u32 },
    ValueNotNullOrUndefined { value: u32 },
    // Logical operators
    LogicalAnd { address: u32, value: u32 },
    LogicalOr { address: u32, value: u32 },
    LogicalNot { value: u32 },
    Coalesce { address: u32, value: u32 },
    // Control flow
    Jump { address: u32 },
    JumpIfTrue { address: u32, value: u32 },
    JumpIfFalse { address: u32, value: u32 },
    JumpIfNotLessThan { address: u32, lhs: u32, rhs: u32 },
    JumpIfNotLessThanOrEqual { address: u32, lhs: u32, rhs: u32 },
    JumpIfNotGreaterThan { address: u32, lhs: u32, rhs: u32 },
    JumpIfNotGreaterThanOrEqual { address: u32, lhs: u32, rhs: u32 },
    JumpIfNotEqual { address: u32, lhs: u32, rhs: u32 },
    JumpIfNullOrUndefined { address: u32, value: u32 },
    JumpIfNotUndefined { address: u32, value: u32 },
    Case { address: u32, value: u32, condition: u32 },
    IncrementLoopIteration,
    // Variable and binding access
    GetName { dst: u32, binding_index: u32 },
    GetNameGlobal { dst: u32, binding_index: u32, ic_index: u32 },
    GetNameOrUndefined { dst: u32, binding_index: u32 },
    GetNameAndLocator { dst: u32, binding_index: u32 },
    GetLocator { binding_index: u32 },
    SetName { src: u32, binding_index: u32 },
    SetNameByLocator { src: u32 },
    PutLexicalValue { src: u32, binding_index: u32 },
    DefInitVar { src: u32, binding_index: u32 },
    DeleteName { dst: u32, binding_index: u32 },
    In { dst: u32, lhs: u32, rhs: u32 },
    ToPropertyKey { src: u32, dst: u32 },
    // Property access
    GetPropertyByName { dst: u32, object: u32, ic_index: u32 },
    GetPropertyByNameWithThis { dst: u32, receiver: u32, object: u32, ic_index: u32 },
    GetLengthProperty { dst: u32, object: u32, ic_index: u32 },
    GetPropertyByValue { dst: u32, key: u32, receiver: u32, object: u32 },
    GetPropertyByValuePush { dst: u32, key: u32, receiver: u32, object: u32 },
    SetPropertyByValue { value: u32, key: u32, receiver: u32, object: u32 },
    SetPropertyByName { value: u32, object: u32, ic_index: u32 },
    DefineOwnPropertyByName { object: u32, value: u32, name_index: u32 },
    DefineOwnPropertyByValue { value: u32, key: u32, object: u32 },
    DeletePropertyByName { object: u32, name_index: u32 },
    DeletePropertyByValue { object: u32, key: u32 },
    GetPrototype { object: u32 },
    SetPrototype { object: u32, prototype: u32 },
    // Object and array creation
    StoreLiteral { dst: u32, index: u32 },
    StoreEmptyObject { dst: u32 },
    StoreNewArray { dst: u32 },
    StoreRegexp { dst: u32, pattern_index: u32, flags_index: u32 },
    PushValueToArray { value: u32, array: u32 },
    PushElisionToArray { array: u32 },
    // Functions
    GetFunction { dst: u32, index: u32 },
    Call { argument_count: u32 },
    New { argument_count: u32 },
    // Scope
    PushScope { index: u32 },
    CreateUnmappedArgumentsObject { dst: u32 },
    RestParameterInit { dst: u32 },
    SetRegisterFromAccumulator { dst: u32 },
    // Errors
    Throw { src: u32 },
    ThrowNewTypeError { message: u32 },
    ThrowNewReferenceError { message: u32 },
    ThrowMutateImmutable { index: u32 },
    // Return
    CheckReturn,
    Return,
    /// An operation without a name of its own. It has no operands.
    Other { byte: u8 },
}

impl Instruction {
    /// The operation of the instruction.
    pub open spec fn spec_opcode(self) -> Opcode {
        match self {
            Instruction::Move { .. } => Opcode::Move,
            Instruction::StoreZero { .. } => Opcode::StoreZero,
            Instruction::StoreOne { .. } => Opcode::StoreOne,
            Instruction::StoreInt8 { .. } => Opcode::StoreInt8,
            Instruction::StoreInt16 { .. } => Opcode::StoreInt16,
            Instruction::StoreInt32 { .. } => Opcode::StoreInt32,
            Instruction::StoreFloat { .. } => Opcode::StoreFloat,
            Instruction::StoreDouble { .. } => Opcode::StoreDouble,
            Instruction::StoreNan { .. } => Opcode::StoreNan,
            Instruction::StorePositiveInfinity { .. } => Opcode::StorePositiveInfinity,
            Instruction::StoreNegativeInfinity { .. } => Opcode::StoreNegativeInfinity,
            Instruction::StoreNull { .. } => Opcode::StoreNull,
            Instruction::StoreTrue { .. } => Opcode::StoreTrue,
            Instruction::StoreFalse { .. } => Opcode::StoreFalse,
            Instruction::StoreUndefined { .. } => Opcode::StoreUndefined,
            Instruction::GetArgument { .. } => Opcode::GetArgument,
            Instruction::This { .. } => Opcode::This,
            Instruction::SetAccumulator { .. } => Opcode::SetAccumulator,
            Instruction::PushFromRegister { .. } => Opcode::PushFromRegister,
            Instruction::PopIntoRegister { .. } => Opcode::PopIntoRegister,
            Instruction::Pop => Opcode::Pop,
            Instruction::Add { .. } => Opcode::Add,
            Instruction::Sub { .. } => Opcode::Sub,
            Instruction::Mul { .. } => Opcode::Mul,
            Instruction::Div { .. } => Opcode::Div,
            Instruction::Mod { .. } => Opcode::Mod,
            Instruction::Pow { .. } => Opcode::Pow,
            Instruction::Neg { .. } => Opcode::Neg,
            Instruction::Pos { .. } => Opcode::Pos,
            Instruction::Inc { .. } => Opcode::Inc,
            Instruction::Dec { .. } => Opcode::Dec,
            Instruction::BitOr { .. } => Opcode::BitOr,
            Instruction::BitAnd { .. } => Opcode::BitAnd,
            Instruction::BitXor { .. } => Opcode::BitXor,
            Instruction::BitNot { .. } => Opcode::BitNot,
            Instruction::ShiftLeft { .. } => Opcode::ShiftLeft,
            Instruction::ShiftRight { .. } => Opcode::ShiftRight,
            Instruction::UnsignedShiftRight { .. } => Opcode::UnsignedShiftRight,
            Instruction::StrictEq { .. } => Opcode::StrictEq,
            Instruction::StrictNotEq { .. } => Opcode::StrictNotEq,
            Instruction::Eq { .. } => Opcode::Eq,
            Instruction::NotEq { .. } => Opcode::NotEq,
            Instruction::GreaterThan { .. } => Opcode::GreaterThan,
            Instruction::GreaterThanOrEq { .. } => Opcode::GreaterThanOrEq,
            Instruction::LessThan { .. } => Opcode::LessThan,
            Instruction::LessThanOrEq { .. } => Opcode::LessThanOrEq,
            Instruction::InstanceOf { .. } => Opcode::InstanceOf,
            Instruction::TypeOf { .. } => Opcode::TypeOf,
            Instruction::IsObject { .. } => Opcode::IsObject,
            Instruction::ValueNotNullOrUndefined { .. } => Opcode::ValueNotNullOrUndefined,
            Instruction::LogicalAnd { .. } => Opcode::LogicalAnd,
            Instruction::LogicalOr { .. } => Opcode::LogicalOr,
            Instruction::LogicalNot { .. } => Opcode::LogicalNot,
            Instruction::Coalesce { .. } => Opcode::Coalesce,
            Instruction::Jump { .. } => Opcode::Jump,
            Instruction::JumpIfTrue { .. } => Opcode::JumpIfTrue,
            Instruction::JumpIfFalse { .. } => Opcode::JumpIfFalse,
            Instruction::JumpIfNotLessThan { .. } => Opcode::JumpIfNotLessThan,
            Instruction::JumpIfNotLessThanOrEqual { .. } => Opcode::JumpIfNotLessThanOrEqual,
            Instruction::JumpIfNotGreaterThan { .. } => Opcode::JumpIfNotGreaterThan,
            Instruction::JumpIfNotGreaterThanOrEqual { .. } => Opcode::JumpIfNotGreaterThanOrEqual,
            Instruction::JumpIfNotEqual { .. } => Opcode::JumpIfNotEqual,
            Instruction::JumpIfNullOrUndefined { .. } => Opcode::JumpIfNullOrUndefined,
            Instruction::JumpIfNotUndefined { .. } => Opcode::JumpIfNotUndefined,
            Instruction::Case { .. } => Opcode::Case,
            Instruction::IncrementLoopIteration => Opcode::IncrementLoopIteration,
            Instruction::GetName { .. } => Opcode::GetName,
            Instruction::GetNameGlobal { .. } => Opcode::GetNameGlobal,
            Instruction::GetNameOrUndefined { .. } => Opcode::GetNameOrUndefined,
            Instruction::GetNameAndLocator { .. } => Opcode::GetNameAndLocator,
            Instruction::GetLocator { .. } => Opcode::GetLocator,
            Instruction::SetName { .. } => Opcode::SetName,
            Instruction::SetNameByLocator { .. } => Opcode::SetNameByLocator,
            Instruction::PutLexicalValue { .. } => Opcode::PutLexicalValue,
            Instruction::DefInitVar { .. } => Opcode::DefInitVar,
            Instruction::DeleteName { .. } => Opcode::DeleteName,
            Instruction::In { .. } => Opcode::In,
            Instruction::ToPropertyKey { .. } => Opcode::ToPropertyKey,
            Instruction::GetPropertyByName { .. } => Opcode::GetPropertyByName,
            Instruction::GetPropertyByNameWithThis { .. } => Opcode::GetPropertyByNameWithThis,
            Instruction::GetLengthProperty { .. } => Opcode::GetLengthProperty,
            Instruction::GetPropertyByValue { .. } => Opcode::GetPropertyByValue,
            Instruction::GetPropertyByValuePush { .. } => Opcode::GetPropertyByValuePush,
            Instruction::SetPropertyByValue { .. } => Opcode::SetPropertyByValue,
            Instruction::SetPropertyByName { .. } => Opcode::SetPropertyByName,
            Instruction::DefineOwnPropertyByName { .. } => Opcode::DefineOwnPropertyByName,
            Instruction::DefineOwnPropertyByValue { .. } => Opcode::DefineOwnPropertyByValue,
            Instruction::DeletePropertyByName { .. } => Opcode::DeletePropertyByName,
            Instruction::DeletePropertyByValue { .. } => Opcode::DeletePropertyByValue,
            Instruction::GetPrototype { .. } => Opcode::GetPrototype,
            Instruction::SetPrototype { .. } => Opcode::SetPrototype,
            Instruction::StoreLiteral { .. } => Opcode::StoreLiteral,
            Instruction::StoreEmptyObject { .. } => Opcode::StoreEmptyObject,
            Instruction::StoreNewArray { .. } => Opcode::StoreNewArray,
            Instruction::StoreRegexp { .. } => Opcode::StoreRegexp,
            Instruction::PushValueToArray { .. } => Opcode::PushValueToArray,
            Instruction::PushElisionToArray { .. } => Opcode::PushElisionToArray,
            Instruction::GetFunction { .. } => Opcode::GetFunction,
            Instruction::Call { .. } => Opcode::Call,
            Instruction::New { .. } => Opcode::New,
            Instruction::PushScope { .. } => Opcode::PushScope,
            Instruction::CreateUnmappedArgumentsObject { .. } => Opcode::CreateUnmappedArgumentsObject,
            Instruction::RestParameterInit { .. } => Opcode::RestParameterInit,
            Instruction::SetRegisterFromAccumulator { .. } => Opcode::SetRegisterFromAccumulator,
            Instruction::Throw { .. } => Opcode::Throw,
            Instruction::ThrowNewTypeError { .. } => Opcode::ThrowNewTypeError,
            Instruction::ThrowNewReferenceError { .. } => Opcode::ThrowNewReferenceError,
            Instruction::ThrowMutateImmutable { .. } => Opcode::ThrowMutateImmutable,
            Instruction::CheckReturn => Opcode::CheckReturn,
            Instruction::Return => Opcode::Return,
            Instruction::Other { byte } => Opcode::Other(byte),
        }
    }

    /// Returns the operation of the instruction.
    #[verifier::when_used_as_spec(spec_opcode)]
    pub fn opcode(self) -> (opcode: Opcode)
        ensures
            opcode == self.spec_opcode(),
    {
        match self {
            Instruction::Move { .. } => Opcode::Move,
            Instruction::StoreZero { .. } => Opcode::StoreZero,
            Instruction::StoreOne { .. } => Opcode::StoreOne,
            Instruction::StoreInt8 { .. } => Opcode::StoreInt8,
            Instruction::StoreInt16 { .. } => Opcode::StoreInt16,
            Instruction::StoreInt32 { .. } => Opcode::StoreInt32,
            Instruction::StoreFloat { .. } => Opcode::StoreFloat,
            Instruction::StoreDouble { .. } => Opcode::StoreDouble,
            Instruction::StoreNan { .. } => Opcode::StoreNan,
            Instruction::StorePositiveInfinity { .. } => Opcode::StorePositiveInfinity,
            Instruction::StoreNegativeInfinity { .. } => Opcode::StoreNegativeInfinity,
            Instruction::StoreNull { .. } => Opcode::StoreNull,
            Instruction::StoreTrue { .. } => Opcode::StoreTrue,
            Instruction::StoreFalse { .. } => Opcode::StoreFalse,
            Instruction::StoreUndefined { .. } => Opcode::StoreUndefined,
            Instruction::GetArgument { .. } => Opcode::GetArgument,
            Instruction::This { .. } => Opcode::This,
            Instruction::SetAccumulator { .. } => Opcode::SetAccumulator,
            Instruction::PushFromRegister { .. } => Opcode::PushFromRegister,
            Instruction::PopIntoRegister { .. } => Opcode::PopIntoRegister,
            Instruction::Pop => Opcode::Pop,
            Instruction::Add { .. } => Opcode::Add,
            Instruction::Sub { .. } => Opcode::Sub,
            Instruction::Mul { .. } => Opcode::Mul,
            Instruction::Div { .. } => Opcode::Div,
            Instruction::Mod { .. } => Opcode::Mod,
            Instruction::Pow { .. } => Opcode::Pow,
            Instruction::Neg { .. } => Opcode::Neg,
            Instruction::Pos { .. } => Opcode::Pos,
            Instruction::Inc { .. } => Opcode::Inc,
            Instruction::Dec { .. } => Opcode::Dec,
            Instruction::BitOr { .. } => Opcode::BitOr,
            Instruction::BitAnd { .. } => Opcode::BitAnd,
            Instruction::BitXor { .. } => Opcode::BitXor,
            Instruction::BitNot { .. } => Opcode::BitNot,
            Instruction::ShiftLeft { .. } => Opcode::ShiftLeft,
            Instruction::ShiftRight { .. } => Opcode::ShiftRight,
            Instruction::UnsignedShiftRight { .. } => Opcode::UnsignedShiftRight,
            Instruction::StrictEq { .. } => Opcode::StrictEq,
            Instruction::StrictNotEq { .. } => Opcode::StrictNotEq,
            Instruction::Eq { .. } => Opcode::Eq,
            Instruction::NotEq { .. } => Opcode::NotEq,
            Instruction::GreaterThan { .. } => Opcode::GreaterThan,
            Instruction::GreaterThanOrEq { .. } => Opcode::GreaterThanOrEq,
            Instruction::LessThan { .. } => Opcode::LessThan,
            Instruction::LessThanOrEq { .. } => Opcode::LessThanOrEq,
            Instruction::InstanceOf { .. } => Opcode::InstanceOf,
            Instruction::TypeOf { .. } => Opcode::TypeOf,
            Instruction::IsObject { .. } => Opcode::IsObject,
            Instruction::ValueNotNullOrUndefined { .. } => Opcode::ValueNotNullOrUndefined,
            Instruction::LogicalAnd { .. } => Opcode::LogicalAnd,
            Instruction::LogicalOr { .. } => Opcode::LogicalOr,
            Instruction::LogicalNot { .. } => Opcode::LogicalNot,
            Instruction::Coalesce { .. } => Opcode::Coalesce,
            Instruction::Jump { .. } => Opcode::Jump,
            Instruction::JumpIfTrue { .. } => Opcode::JumpIfTrue,
            Instruction::JumpIfFalse { .. } => Opcode::JumpIfFalse,
            Instruction::JumpIfNotLessThan { .. } => Opcode::JumpIfNotLessThan,
            Instruction::JumpIfNotLessThanOrEqual { .. } => Opcode::JumpIfNotLessThanOrEqual,
            Instruction::JumpIfNotGreaterThan { .. } => Opcode::JumpIfNotGreaterThan,
            Instruction::JumpIfNotGreaterThanOrEqual { .. } => Opcode::JumpIfNotGreaterThanOrEqual,
            Instruction::JumpIfNotEqual { .. } => Opcode::JumpIfNotEqual,
            Instruction::JumpIfNullOrUndefined { .. } => Opcode::JumpIfNullOrUndefined,
            Instruction::JumpIfNotUndefined { .. } => Opcode::JumpIfNotUndefined,
            Instruction::Case { .. } => Opcode::Case,
            Instruction::IncrementLoopIteration => Opcode::IncrementLoopIteration,
            Instruction::GetName { .. } => Opcode::GetName,
            Instruction::GetNameGlobal { .. } => Opcode::GetNameGlobal,
            Instruction::GetNameOrUndefined { .. } => Opcode::GetNameOrUndefined,
            Instruction::GetNameAndLocator { .. } => Opcode::GetNameAndLocator,
            Instruction::GetLocator { .. } => Opcode::GetLocator,
            Instruction::SetName { .. } => Opcode::SetName,
            Instruction::SetNameByLocator { .. } => Opcode::SetNameByLocator,
            Instruction::PutLexicalValue { .. } => Opcode::PutLexicalValue,
            Instruction::DefInitVar { .. } => Opcode::DefInitVar,
            Instruction::DeleteName { .. } => Opcode::DeleteName,
            Instruction::In { .. } => Opcode::In,
            Instruction::ToPropertyKey { .. } => Opcode::ToPropertyKey,
            Instruction::GetPropertyByName { .. } => Opcode::GetPropertyByName,
            Instruction::GetPropertyByNameWithThis { .. } => Opcode::GetPropertyByNameWithThis,
            Instruction::GetLengthProperty { .. } => Opcode::GetLengthProperty,
            Instruction::GetPropertyByValue { .. } => Opcode::GetPropertyByValue,
            Instruction::GetPropertyByValuePush { .. } => Opcode::GetPropertyByValuePush,
            Instruction::SetPropertyByValue { .. } => Opcode::SetPropertyByValue,
            Instruction::SetPropertyByName { .. } => Opcode::SetPropertyByName,
            Instruction::DefineOwnPropertyByName { .. } => Opcode::DefineOwnPropertyByName,
            Instruction::DefineOwnPropertyByValue { .. } => Opcode::DefineOwnPropertyByValue,
            Instruction::DeletePropertyByName { .. } => Opcode::DeletePropertyByName,
            Instruction::DeletePropertyByValue { .. } => Opcode::DeletePropertyByValue,
            Instruction::GetPrototype { .. } => Opcode::GetPrototype,
            Instruction::SetPrototype { .. } => Opcode::SetPrototype,
            Instruction::StoreLiteral { .. } => Opcode::StoreLiteral,
            Instruction::StoreEmptyObject { .. } => Opcode::StoreEmptyObject,
            Instruction::StoreNewArray { .. } => Opcode::StoreNewArray,
            Instruction::StoreRegexp { .. } => Opcode::StoreRegexp,
            Instruction::PushValueToArray { .. } => Opcode::PushValueToArray,
            Instruction::PushElisionToArray { .. } => Opcode::PushElisionToArray,
            Instruction::GetFunction { .. } => Opcode::GetFunction,
            Instruction::Call { .. } => Opcode::Call,
            Instruction::New { .. } => Opcode::New,
            Instruction::PushScope { .. } => Opcode::PushScope,
            Instruction::CreateUnmappedArgumentsObject { .. } => Opcode::CreateUnmappedArgumentsObject,
            Instruction::RestParameterInit { .. } => Opcode::RestParameterInit,
            Instruction::SetRegisterFromAccumulator { .. } => Opcode::SetRegisterFromAccumulator,
            Instruction::Throw { .. } => Opcode::Throw,
            Instruction::ThrowNewTypeError { .. } => Opcode::ThrowNewTypeError,
            Instruction::ThrowNewReferenceError { .. } => Opcode::ThrowNewReferenceError,
            Instruction::ThrowMutateImmutable { .. } => Opcode::ThrowMutateImmutable,
            Instruction::CheckReturn => Opcode::CheckReturn,
            Instruction::Return => Opcode::Return,
            Instruction::Other { byte } => Opcode::Other(byte),
        }
    }

    /// The word operands, in the order in which they are encoded.
    pub open spec fn words(self) -> Seq<u32> {
        match self {
            Instruction::Move { dst, src } => seq![dst, src],
            Instruction::StoreZero { dst } => [dst]@,
            Instruction::StoreOne { dst } => [dst]@,
            Instruction::StoreInt8 { dst, .. } => [dst]@,
            Instruction::StoreInt16 { dst, .. } => [dst]@,
            Instruction::StoreInt32 { dst, .. } => [dst]@,
            Instruction::StoreFloat { dst, .. } => [dst]@,
            Instruction::StoreDouble { dst, .. } => [dst]@,
            Instruction::StoreNan { dst } => [dst]@,
            Instruction::StorePositiveInfinity { dst } => [dst]@,
            Instruction::StoreNegativeInfinity { dst } => [dst]@,
            Instruction::StoreNull { dst } => [dst]@,
            Instruction::StoreTrue { dst } => [dst]@,
            Instruction::StoreFalse { dst } => [dst]@,
            Instruction::StoreUndefined { dst } => [dst]@,
            Instruction::GetArgument { index, dst } => seq![index, dst],
            Instruction::This { dst } => [dst]@,
            Instruction::SetAccumulator { src } => [src]@,
            Instruction::PushFromRegister { src } => [src]@,
            Instruction::PopIntoRegister { dst } => [dst]@,
            Instruction::Pop => seq![],
            Instruction::Add { dst, lhs, rhs } => seq![dst, lhs, rhs],
            Instruction::Sub { dst, lhs, rhs } => seq![dst, lhs, rhs],
            Instruction::Mul { dst, lhs, rhs } => seq![dst, lhs, rhs],
            Instruction::Div { dst, lhs, rhs } => seq![dst, lhs, rhs],
            Instruction::Mod { dst, lhs, rhs } => seq![dst, lhs, rhs],
            Instruction::Pow { dst, lhs, rhs } => seq![dst, lhs, rhs],
            Instruction::Neg { value } => [value]@,
            Instruction::Pos { value } => [value]@,
            Instruction::Inc { dst, src } => seq![dst, src],
            Instruction::Dec { dst, src } => seq![dst, src],
            Instruction::BitOr { dst, lhs, rhs } => seq![dst, lhs, rhs],
            Instruction::BitAnd { dst, lhs, rhs } => seq![dst, lhs, rhs],
            Instruction::BitXor { dst, lhs, rhs } => seq![dst, lhs, rhs],
            Instruction::BitNot { value } => [value]@,
            Instruction::ShiftLeft { dst, lhs, rhs } => seq![dst, lhs, rhs],
            Instruction::ShiftRight { dst, lhs, rhs } => seq![dst, lhs, rhs],
            Instruction::UnsignedShiftRight { dst, lhs, rhs } => seq![dst, lhs, rhs],
            Instruction::StrictEq { dst, lhs, rhs } => seq![dst, lhs, rhs],
            Instruction::StrictNotEq { dst, lhs, rhs } => seq![dst, lhs, rhs],
            Instruction::Eq { dst, lhs, rhs } => seq![dst, lhs, rhs],
            Instruction::NotEq { dst, lhs, rhs } => seq![dst, lhs, rhs],
            Instruction::GreaterThan { dst, lhs, rhs } => seq![dst, lhs, rhs],
            Instruction::GreaterThanOrEq { dst, lhs, rhs } => seq![dst, lhs, rhs],
            Instruction::LessThan { dst, lhs, rhs } => seq![dst, lhs, rhs],
            Instruction::LessThanOrEq { dst, lhs, rhs } => seq![dst, lhs, rhs],
            Instruction::InstanceOf { dst, lhs, rhs } => seq![dst, lhs, rhs],
            Instruction::TypeOf { value } => [value]@,
            Instruction::IsObject { value } => [value]@,
            Instruction::ValueNotNullOrUndefined { value } => [value]@,
            Instruction::LogicalAnd { address, value } => seq![address, value],
            Instruction::LogicalOr { address, value } => seq![address, value],
            Instruction::LogicalNot { value } => [value]@,
            Instruction::Coalesce { address, value } => seq![address, value],
            Instruction::Jump { address } => [address]@,
            Instruction::JumpIfTrue { address, value } => seq![address, value],
            Instruction::JumpIfFalse { address, value } => seq![address, value],
            Instruction::JumpIfNotLessThan { address, lhs, rhs } => seq![address, lhs, rhs],
            Instruction::JumpIfNotLessThanOrEqual { address, lhs, rhs } => seq![address, lhs, rhs],
            Instruction::JumpIfNotGreaterThan { address, lhs, rhs } => seq![address, lhs, rhs],
            Instruction::JumpIfNotGreaterThanOrEqual { address, lhs, rhs } => seq![address, lhs, rhs],
            Instruction::JumpIfNotEqual { address, lhs, rhs } => seq![address, lhs, rhs],
            Instruction::JumpIfNullOrUndefined { address, value } => seq![address, value],
            Instruction::JumpIfNotUndefined { address, value } => seq![address, value],
            Instruction::Case { address, value, condition } => seq![address, value, condition],
            Instruction::IncrementLoopIteration => seq![],
            Instruction::GetName { dst, binding_index } => seq![dst, binding_index],
            Instruction::GetNameGlobal { dst, binding_index, ic_index } => seq![dst, binding_index, ic_index],
            Instruction::GetNameOrUndefined { dst, binding_index } => seq![dst, binding_index],
            Instruction::GetNameAndLocator { dst, binding_index } => seq![dst, binding_index],
            Instruction::GetLocator { binding_index } => [binding_index]@,
            Instruction::SetName { src, binding_index } => seq![src, binding_index],
            Instruction::SetNameByLocator { src } => [src]@,
            Instruction::PutLexicalValue { src, binding_index } => seq![src, binding_index],
            Instruction::DefInitVar { src, binding_index } => seq![src, binding_index],
            Instruction::DeleteName { dst, binding_index } => seq![dst, binding_index],
            Instruction::In { dst, lhs, rhs } => seq![dst, lhs, rhs],
            Instruction::ToPropertyKey { src, dst } => seq![src, dst],
            Instruction::GetPropertyByName { dst, object, ic_index } => seq![dst, object, ic_index],
            Instruction::GetPropertyByNameWithThis { dst, receiver, object, ic_index } => seq![dst, receiver, object, ic_index],
            Instruction::GetLengthProperty { dst, object, ic_index } => seq![dst, object, ic_index],
            Instruction::GetPropertyByValue { dst, key, receiver, object } => seq![dst, key, receiver, object],
            Instruction::GetPropertyByValuePush { dst, key, receiver, object } => seq![dst, key, receiver, object],
            Instruction::SetPropertyByValue { value, key, receiver, object } => seq![value, key, receiver, object],
            Instruction::SetPropertyByName { value, object, ic_index } => seq![value, object, ic_index],
            Instruction::DefineOwnPropertyByName { object, value, name_index } => seq![object, value, name_index],
            Instruction::DefineOwnPropertyByValue { value, key, object } => seq![value, key, object],
            Instruction::DeletePropertyByName { object, name_index } => seq![object, name_index],
            Instruction::DeletePropertyByValue { object, key } => seq![object, key],
            Instruction::GetPrototype { object } => [object]@,
            Instruction::SetPrototype { object, prototype } => seq![object, prototype],
            Instruction::StoreLiteral { dst, index } => seq![dst, index],
            Instruction::StoreEmptyObject { dst } => [dst]@,
            Instruction::StoreNewArray { dst } => [dst]@,
            Instruction::StoreRegexp { dst, pattern_index, flags_index } => seq![dst, pattern_index, flags_index],
            Instruction::PushValueToArray { value, array } => seq![value, array],
            Instruction::PushElisionToArray { array } => [array]@,
            Instruction::GetFunction { dst, index } => seq![dst, index],
            Instruction::Call { argument_count } => [argument_count]@,
            Instruction::New { argument_count } => [argument_count]@,
            Instruction::PushScope { index } => [index]@,
            Instruction::CreateUnmappedArgumentsObject { dst } => [dst]@,
            Instruction::RestParameterInit { dst } => [dst]@,
            Instruction::SetRegisterFromAccumulator { dst } => [dst]@,
            Instruction::Throw { src } => [src]@,
            Instruction::ThrowNewTypeError { message } => [message]@,
            Instruction::ThrowNewReferenceError { message } => [message]@,
            Instruction::ThrowMutateImmutable { index } => [index]@,
            Instruction::CheckReturn => seq![],
            Instruction::Return => seq![],
            Instruction::Other { .. } => seq![],
        }
    }


    /// The immediate operand, as it is encoded.
    pub open spec fn immediate(self) -> Seq<u8> {
        match self {
            Instruction::StoreInt8 { value, .. } => le_bytes(wrapped(value as int, 1), 1),
            Instruction::StoreInt16 { value, .. } => le_bytes(wrapped(value as int, 2), 2),
            Instruction::StoreInt32 { value, .. } => le_bytes(wrapped(value as int, 4), 4),
            Instruction::StoreFloat { bits, .. } => le_bytes(bits as nat, 4),
            Instruction::StoreDouble { bits, .. } => le_bytes(bits as nat, 8),
            _ => seq![],
        }
    }

    /// An operation without a name keeps off the bytes of the named ones.
    pub open spec fn wf(self) -> bool {
        self.spec_opcode().wf()
    }

    /// The bytes of the instruction.
    pub open spec fn encoding(self) -> Seq<u8> {
        seq![self.spec_opcode().byte()] + words_encoding(self.words()) + self.immediate()
    }

    /// Appends the bytes of the instruction.
    pub fn encode(&self, bytes: &mut Vec<u8>)
        ensures
            final(bytes)@ == old(bytes)@ + self.encoding(),
    {
        bytes.push(self.opcode().to_byte());
        let words: Vec<u32> = self.word_operands();
        let mut i: usize = 0;
        while i < words.len()
            invariant
                i <= words@.len(),
                words@ == self.words(),
                bytes@ == old(bytes)@ + seq![self.spec_opcode().byte()] + words_encoding(
                    words@.take(i as int),
                ),
            decreases words@.len() - i,
        {
            write_le(bytes, words[i] as u64, 4);
            i = i + 1;
            assert(words@.take(i as int).drop_last() =~= words@.take(i - 1));
            assert(bytes@ =~= old(bytes)@ + seq![self.spec_opcode().byte()] + words_encoding(
                words@.take(i as int),
            ));
        }
        assert(words@.take(i as int) =~= words@);
        match *self {
            Instruction::StoreInt8 { value, .. } => {
                let raw: u64 = if value < 0 { (value as i64 + 0x100) as u64 } else { value as u64 };
                write_le(bytes, raw, 1);
            }
            Instruction::StoreInt16 { value, .. } => {
                let raw: u64 = if value < 0 { (value as i64 + 0x1_0000) as u64 } else { value as u64 };
                write_le(bytes, raw, 2);
            }
            Instruction::StoreInt32 { value, .. } => {
                let raw: u64 = if value < 0 { (value as i64 + 0x1_0000_0000) as u64 } else { value as u64 };
                write_le(bytes, raw, 4);
            }
            Instruction::StoreFloat { bits, .. } => write_le(bytes, bits as u64, 4),
            Instruction::StoreDouble { bits, .. } => write_le(bytes, bits, 8),
            _ => {}
        }
        proof {
            pow256_values();
        }
        assert(bytes@ =~= old(bytes)@ + self.encoding());
    }

    /// Returns the word operands, in the order in which they are encoded.
    fn word_operands(&self) -> (words: Vec<u32>)
        ensures
            words@ == self.words(),
    {
        match *self {
            Instruction::Move { dst, src } => vec![dst, src],
            Instruction::StoreZero { dst } => vec![dst],
            Instruction::StoreOne { dst } => vec![dst],
            Instruction::StoreInt8 { dst, .. } => vec![dst],
            Instruction::StoreInt16 { dst, .. } => vec![dst],
            Instruction::StoreInt32 { dst, .. } => vec![dst],
            Instruction::StoreFloat { dst, .. } => vec![dst],
            Instruction::StoreDouble { dst, .. } => vec![dst],
            Instruction::StoreNan { dst } => vec![dst],
            Instruction::StorePositiveInfinity { dst } => vec![dst],
            Instruction::StoreNegativeInfinity { dst } => vec![dst],
            Instruction::StoreNull { dst } => vec![dst],
            Instruction::StoreTrue { dst } => vec![dst],
            Instruction::StoreFalse { dst } => vec![dst],
            Instruction::StoreUndefined { dst } => vec![dst],
            Instruction::GetArgument { index, dst } => vec![index, dst],
            Instruction::This { dst } => vec![dst],
            Instruction::SetAccumulator { src } => vec![src],
            Instruction::PushFromRegister { src } => vec![src],
            Instruction::PopIntoRegister { dst } => vec![dst],
            Instruction::Pop => Vec::new(),
            Instruction::Add { dst, lhs, rhs } => vec![dst, lhs, rhs],
            Instruction::Sub { dst, lhs, rhs } => vec![dst, lhs, rhs],
            Instruction::Mul { dst, lhs, rhs } => vec![dst, lhs, rhs],
            Instruction::Div { dst, lhs, rhs } => vec![dst, lhs, rhs],
            Instruction::Mod { dst, lhs, rhs } => vec![dst, lhs, rhs],
            Instruction::Pow { dst, lhs, rhs } => vec![dst, lhs, rhs],
            Instruction::Neg { value } => vec![value],
            Instruction::Pos { value } => vec![value],
            Instruction::Inc { dst, src } => vec![dst, src],
            Instruction::Dec { dst, src } => vec![dst, src],
            Instruction::BitOr { dst, lhs, rhs } => vec![dst, lhs, rhs],
            Instruction::BitAnd { dst, lhs, rhs } => vec![dst, lhs, rhs],
            Instruction::BitXor { dst, lhs, rhs } => vec![dst, lhs, rhs],
            Instruction::BitNot { value } => vec![value],
            Instruction::ShiftLeft { dst, lhs, rhs } => vec![dst, lhs, rhs],
            Instruction::ShiftRight { dst, lhs, rhs } => vec![dst, lhs, rhs],
            Instruction::UnsignedShiftRight { dst, lhs, rhs } => vec![dst, lhs, rhs],
            Instruction::StrictEq { dst, lhs, rhs } => vec![dst, lhs, rhs],
            Instruction::StrictNotEq { dst, lhs, rhs } => vec![dst, lhs, rhs],
            Instruction::Eq { dst, lhs, rhs } => vec![dst, lhs, rhs],
            Instruction::NotEq { dst, lhs, rhs } => vec![dst, lhs, rhs],
            Instruction::GreaterThan { dst, lhs, rhs } => vec![dst, lhs, rhs],
            Instruction::GreaterThanOrEq { dst, lhs, rhs } => vec![dst, lhs, rhs],
            Instruction::LessThan { dst, lhs, rhs } => vec![dst, lhs, rhs],
            Instruction::LessThanOrEq { dst, lhs, rhs } => vec![dst, lhs, rhs],
            Instruction::InstanceOf { dst, lhs, rhs } => vec![dst, lhs, rhs],
            Instruction::TypeOf { value } => vec![value],
            Instruction::IsObject { value } => vec![value],
            Instruction::ValueNotNullOrUndefined { value } => vec![value],
            Instruction::LogicalAnd { address, value } => vec![address, value],
            Instruction::LogicalOr { address, value } => vec![address, value],
            Instruction::LogicalNot { value } => vec![value],
            Instruction::Coalesce { address, value } => vec![address, value],
            Instruction::Jump { address } => vec![address],
            Instruction::JumpIfTrue { address, value } => vec![address, value],
            Instruction::JumpIfFalse { address, value } => vec![address, value],
            Instruction::JumpIfNotLessThan { address, lhs, rhs } => vec![address, lhs, rhs],
            Instruction::JumpIfNotLessThanOrEqual { address, lhs, rhs } => vec![address, lhs, rhs],
            Instruction::JumpIfNotGreaterThan { address, lhs, rhs } => vec![address, lhs, rhs],
            Instruction::JumpIfNotGreaterThanOrEqual { address, lhs, rhs } => vec![address, lhs, rhs],
            Instruction::JumpIfNotEqual { address, lhs, rhs } => vec![address, lhs, rhs],
            Instruction::JumpIfNullOrUndefined { address, value } => vec![address, value],
            Instruction::JumpIfNotUndefined { address, value } => vec![address, value],
            Instruction::Case { address, value, condition } => vec![address, value, condition],
            Instruction::IncrementLoopIteration => Vec::new(),
            Instruction::GetName { dst, binding_index } => vec![dst, binding_index],
            Instruction::GetNameGlobal { dst, binding_index, ic_index } => vec![dst, binding_index, ic_index],
            Instruction::GetNameOrUndefined { dst, binding_index } => vec![dst, binding_index],
            Instruction::GetNameAndLocator { dst, binding_index } => vec![dst, binding_index],
            Instruction::GetLocator { binding_index } => vec![binding_index],
            Instruction::SetName { src, binding_index } => vec![src, binding_index],
            Instruction::SetNameByLocator { src } => vec![src],
            Instruction::PutLexicalValue { src, binding_index } => vec![src, binding_index],
            Instruction::DefInitVar { src, binding_index } => vec![src, binding_index],
            Instruction::DeleteName { dst, binding_index } => vec![dst, binding_index],
            Instruction::In { dst, lhs, rhs } => vec![dst, lhs, rhs],
            Instruction::ToPropertyKey { src, dst } => vec![src, dst],
            Instruction::GetPropertyByName { dst, object, ic_index } => vec![dst, object, ic_index],
            Instruction::GetPropertyByNameWithThis { dst, receiver, object, ic_index } => vec![dst, receiver, object, ic_index],
            Instruction::GetLengthProperty { dst, object, ic_index } => vec![dst, object, ic_index],
            Instruction::GetPropertyByValue { dst, key, receiver, object } => vec![dst, key, receiver, object],
            Instruction::GetPropertyByValuePush { dst, key, receiver, object } => vec![dst, key, receiver, object],
            Instruction::SetPropertyByValue { value, key, receiver, object } => vec![value, key, receiver, object],
            Instruction::SetPropertyByName { value, object, ic_index } => vec![value, object, ic_index],
            Instruction::DefineOwnPropertyByName { object, value, name_index } => vec![object, value, name_index],
            Instruction::DefineOwnPropertyByValue { value, key, object } => vec![value, key, object],
            Instruction::DeletePropertyByName { object, name_index } => vec![object, name_index],
            Instruction::DeletePropertyByValue { object, key } => vec![object, key],
            Instruction::GetPrototype { object } => vec![object],
            Instruction::SetPrototype { object, prototype } => vec![object, prototype],
            Instruction::StoreLiteral { dst, index } => vec![dst, index],
            Instruction::StoreEmptyObject { dst } => vec![dst],
            Instruction::StoreNewArray { dst } => vec![dst],
            Instruction::StoreRegexp { dst, pattern_index, flags_index } => vec![dst, pattern_index, flags_index],
            Instruction::PushValueToArray { value, array } => vec![value, array],
            Instruction::PushElisionToArray { array } => vec![array],
            Instruction::GetFunction { dst, index } => vec![dst, index],
            Instruction::Call { argument_count } => vec![argument_count],
            Instruction::New { argument_count } => vec![argument_count],
            Instruction::PushScope { index } => vec![index],
            Instruction::CreateUnmappedArgumentsObject { dst } => vec![dst],
            Instruction::RestParameterInit { dst } => vec![dst],
            Instruction::SetRegisterFromAccumulator { dst } => vec![dst],
            Instruction::Throw { src } => vec![src],
            Instruction::ThrowNewTypeError { message } => vec![message],
            Instruction::ThrowNewReferenceError { message } => vec![message],
            Instruction::ThrowMutateImmutable { index } => vec![index],
            Instruction::CheckReturn => Vec::new(),
            Instruction::Return => Vec::new(),
            Instruction::Other { .. } => Vec::new(),
        }
    }

    /// Returns the instruction that starts at `pc`, and the position after it.
    /// There is none if the bytes end too early.
    pub fn decode(bytes: &Vec<u8>, pc: usize) -> (decoded: Option<(Instruction, usize)>)
        requires
            pc < bytes@.len(),
        ensures
            match decoded {
                Some((instruction, next)) => {
                    &&& instruction.wf()
                    &&& pc < next <= bytes@.len()
                    &&& bytes@.subrange(pc as int, next as int) == instruction.encoding()
                },
                None => forall|instruction: Instruction|
                    instruction.wf() ==> !(#[trigger] instruction.encoding()).is_prefix_of(
                        bytes@.skip(pc as int),
                    ),
            },
    {
        let opcode = Opcode::from_byte(bytes[pc]);
        let count: usize = word_count(opcode);
        let tail: usize = immediate_len(opcode);
        let size: usize = bytes.len();
        if size - pc - 1 < 4 * count + tail {
            proof {
                assert forall|instruction: Instruction| instruction.wf() implies !(
                #[trigger] instruction.encoding()).is_prefix_of(bytes@.skip(pc as int)) by {
                    encoding_starts_with_opcode(instruction);
                    if instruction.encoding().is_prefix_of(bytes@.skip(pc as int)) {
                        assert(instruction.encoding()[0] == bytes@.skip(pc as int)[0]);
                        opcode_bytes_are_distinct(opcode, instruction.spec_opcode());
                    }
                }
            }
            return None;
        }
        let mut words: Vec<u32> = Vec::new();
        let mut at: usize = pc + 1;
        let mut i: usize = 0;
        while i < count
            invariant
                i <= count <= 4,
                tail <= 8,
                pc < size == bytes@.len(),
                size - pc - 1 >= 4 * count + tail,
                at == pc + 1 + 4 * i,
                words@.len() == i,
                bytes@.subrange(pc + 1, at as int) == words_encoding(words@),
            decreases count - i,
        {
            let word: u64 = read_le(bytes, at, 4);
            proof {
                pow256_values();
            }
            let ghost before = words@;
            words.push(word as u32);
            proof {
                le_bytes_of_le_value(bytes@.subrange(at as int, at + 4));
                assert(words@.drop_last() =~= before);
                assert(bytes@.subrange(pc + 1, at + 4) =~= bytes@.subrange(pc + 1, at as int)
                    + bytes@.subrange(at as int, at + 4));
            }
            at = at + 4;
            i = i + 1;
        }
        let raw: u64 = read_le(bytes, at, tail);
        let instruction = assemble(opcode, &words, raw);
        proof {
            le_bytes_of_le_value(bytes@.subrange(at as int, at + tail));
            assert(bytes@.subrange(pc as int, at + tail) =~= seq![bytes@[pc as int]]
                + bytes@.subrange(pc + 1, at as int) + bytes@.subrange(at as int, at + tail));
        }
        Some((instruction, at + tail))
    }
}

/// The two's complement representation of `value` in `len` bytes.
pub open spec fn wrapped(value: int, len: nat) -> nat {
    if value < 0 {
        (value + pow256(len)) as nat
    } else {
        value as nat
    }
}

/// Words one after the other, four bytes each.
pub open spec fn words_encoding(words: Seq<u32>) -> Seq<u8>
    decreases words.len(),
{
    if words.len() == 0 {
        seq![]
    } else {
        words_encoding(words.drop_last()) + le_bytes(words.last() as nat, 4)
    }
}

/// How many word operands an instruction with this operation has.
pub open spec fn spec_word_count(opcode: Opcode) -> usize {
    match opcode {
        Opcode::Pop
        | Opcode::IncrementLoopIteration
        | Opcode::CheckReturn
        | Opcode::Return
        | Opcode::Other(_) => 0,
        Opcode::Move
        | Opcode::GetArgument
        | Opcode::Inc
        | Opcode::Dec
        | Opcode::LogicalAnd
        | Opcode::LogicalOr
        | Opcode::Coalesce
        | Opcode::JumpIfTrue
        | Opcode::JumpIfFalse
        | Opcode::JumpIfNullOrUndefined
        | Opcode::JumpIfNotUndefined
        | Opcode::GetName
        | Opcode::GetNameOrUndefined
        | Opcode::GetNameAndLocator
        | Opcode::SetName
        | Opcode::PutLexicalValue
        | Opcode::DefInitVar
        | Opcode::DeleteName
        | Opcode::ToPropertyKey
        | Opcode::DeletePropertyByName
        | Opcode::DeletePropertyByValue
        | Opcode::SetPrototype
        | Opcode::StoreLiteral
        | Opcode::PushValueToArray
        | Opcode::GetFunction => 2,
        Opcode::Add
        | Opcode::Sub
        | Opcode::Mul
        | Opcode::Div
        | Opcode::Mod
        | Opcode::Pow
        | Opcode::BitOr
        | Opcode::BitAnd
        | Opcode::BitXor
        | Opcode::ShiftLeft
        | Opcode::ShiftRight
        | Opcode::UnsignedShiftRight
        | Opcode::StrictEq
        | Opcode::StrictNotEq
        | Opcode::Eq
        | Opcode::NotEq
        | Opcode::GreaterThan
        | Opcode::GreaterThanOrEq
        | Opcode::LessThan
        | Opcode::LessThanOrEq
        | Opcode::InstanceOf
        | Opcode::JumpIfNotLessThan
        | Opcode::JumpIfNotLessThanOrEqual
        | Opcode::JumpIfNotGreaterThan
        | Opcode::JumpIfNotGreaterThanOrEqual
        | Opcode::JumpIfNotEqual
        | Opcode::Case
        | Opcode::GetNameGlobal
        | Opcode::In
        | Opcode::GetPropertyByName
        | Opcode::GetLengthProperty
        | Opcode::SetPropertyByName
        | Opcode::DefineOwnPropertyByName
        | Opcode::DefineOwnPropertyByValue
        | Opcode::StoreRegexp => 3,
        Opcode::GetPropertyByNameWithThis
        | Opcode::GetPropertyByValue
        | Opcode::GetPropertyByValuePush
        | Opcode::SetPropertyByValue => 4,
        _ => 1,
    }
}

fn word_count(opcode: Opcode) -> (count: usize)
    ensures
        count == spec_word_count(opcode),
        count <= 4,
{
    match opcode {
        Opcode::Pop
        | Opcode::IncrementLoopIteration
        | Opcode::CheckReturn
        | Opcode::Return
        | Opcode::Other(_) => 0,
        Opcode::Move
        | Opcode::GetArgument
        | Opcode::Inc
        | Opcode::Dec
        | Opcode::LogicalAnd
        | Opcode::LogicalOr
        | Opcode::Coalesce
        | Opcode::JumpIfTrue
        | Opcode::JumpIfFalse
        | Opcode::JumpIfNullOrUndefined
        | Opcode::JumpIfNotUndefined
        | Opcode::GetName
        | Opcode::GetNameOrUndefined
        | Opcode::GetNameAndLocator
        | Opcode::SetName
        | Opcode::PutLexicalValue
        | Opcode::DefInitVar
        | Opcode::DeleteName
        | Opcode::ToPropertyKey
        | Opcode::DeletePropertyByName
        | Opcode::DeletePropertyByValue
        | Opcode::SetPrototype
        | Opcode::StoreLiteral
        | Opcode::PushValueToArray
        | Opcode::GetFunction => 2,
        Opcode::Add
        | Opcode::Sub
        | Opcode::Mul
        | Opcode::Div
        | Opcode::Mod
        | Opcode::Pow
        | Opcode::BitOr
        | Opcode::BitAnd
        | Opcode::BitXor
        | Opcode::ShiftLeft
        | Opcode::ShiftRight
        | Opcode::UnsignedShiftRight
        | Opcode::StrictEq
        | Opcode::StrictNotEq
        | Opcode::Eq
        | Opcode::NotEq
        | Opcode::GreaterThan
        | Opcode::GreaterThanOrEq
        | Opcode::LessThan
        | Opcode::LessThanOrEq
        | Opcode::InstanceOf
        | Opcode::JumpIfNotLessThan
        | Opcode::JumpIfNotLessThanOrEqual
        | Opcode::JumpIfNotGreaterThan
        | Opcode::JumpIfNotGreaterThanOrEqual
        | Opcode::JumpIfNotEqual
        | Opcode::Case
        | Opcode::GetNameGlobal
        | Opcode::In
        | Opcode::GetPropertyByName
        | Opcode::GetLengthProperty
        | Opcode::SetPropertyByName
        | Opcode::DefineOwnPropertyByName
        | Opcode::DefineOwnPropertyByValue
        | Opcode::StoreRegexp => 3,
        Opcode::GetPropertyByNameWithThis
        | Opcode::GetPropertyByValue
        | Opcode::GetPropertyByValuePush
        | Opcode::SetPropertyByValue => 4,
        _ => 1,
    }
}

/// How many bytes the immediate of an instruction with this operation takes.
pub open spec fn spec_immediate_len(opcode: Opcode) -> usize {
    match opcode {
        Opcode::StoreInt8 => 1,
        Opcode::StoreInt16 => 2,
        Opcode::StoreInt32 | Opcode::StoreFloat => 4,
        Opcode::StoreDouble => 8,
        _ => 0,
    }
}

fn immediate_len(opcode: Opcode) -> (len: usize)
    ensures
        len == spec_immediate_len(opcode),
        len <= 8,
{
    match opcode {
        Opcode::StoreInt8 => 1,
        Opcode::StoreInt16 => 2,
        Opcode::StoreInt32 | Opcode::StoreFloat => 4,
        Opcode::StoreDouble => 8,
        _ => 0,
    }
}

/// Puts an instruction together from its operation, its words and the number
/// that its immediate bytes stand for.
fn assemble(opcode: Opcode, words: &Vec<u32>, raw: u64) -> (instruction: Instruction)
    requires
        words@.len() == spec_word_count(opcode),
        raw < pow256(spec_immediate_len(opcode) as nat),
    ensures
        instruction.spec_opcode() == opcode,
        instruction.words() == words@,
        instruction.immediate() == le_bytes(raw as nat, spec_immediate_len(opcode) as nat),
{
    proof {
        pow256_values();
    }
    match opcode {
        Opcode::Move => Instruction::Move { dst: words[0], src: words[1] },
        Opcode::StoreZero => Instruction::StoreZero { dst: words[0] },
        Opcode::StoreOne => Instruction::StoreOne { dst: words[0] },
        Opcode::StoreInt8 => Instruction::StoreInt8 { dst: words[0], value: signed(raw, 0x100) as i8 },
        Opcode::StoreInt16 => Instruction::StoreInt16 { dst: words[0], value: signed(raw, 0x1_0000) as i16 },
        Opcode::StoreInt32 => Instruction::StoreInt32 { dst: words[0], value: signed(raw, 0x1_0000_0000) as i32 },
        Opcode::StoreFloat => Instruction::StoreFloat { dst: words[0], bits: raw as u32 },
        Opcode::StoreDouble => Instruction::StoreDouble { dst: words[0], bits: raw },
        Opcode::StoreNan => Instruction::StoreNan { dst: words[0] },
        Opcode::StorePositiveInfinity => Instruction::StorePositiveInfinity { dst: words[0] },
        Opcode::StoreNegativeInfinity => Instruction::StoreNegativeInfinity { dst: words[0] },
        Opcode::StoreNull => Instruction::StoreNull { dst: words[0] },
        Opcode::StoreTrue => Instruction::StoreTrue { dst: words[0] },
        Opcode::StoreFalse => Instruction::StoreFalse { dst: words[0] },
        Opcode::StoreUndefined => Instruction::StoreUndefined { dst: words[0] },
        Opcode::GetArgument => Instruction::GetArgument { index: words[0], dst: words[1] },
        Opcode::This => Instruction::This { dst: words[0] },
        Opcode::SetAccumulator => Instruction::SetAccumulator { src: words[0] },
        Opcode::PushFromRegister => Instruction::PushFromRegister { src: words[0] },
        Opcode::PopIntoRegister => Instruction::PopIntoRegister { dst: words[0] },
        Opcode::Pop => Instruction::Pop,
        Opcode::Add => Instruction::Add { dst: words[0], lhs: words[1], rhs: words[2] },
        Opcode::Sub => Instruction::Sub { dst: words[0], lhs: words[1], rhs: words[2] },
        Opcode::Mul => Instruction::Mul { dst: words[0], lhs: words[1], rhs: words[2] },
        Opcode::Div => Instruction::Div { dst: words[0], lhs: words[1], rhs: words[2] },
        Opcode::Mod => Instruction::Mod { dst: words[0], lhs: words[1], rhs: words[2] },
        Opcode::Pow => Instruction::Pow { dst: words[0], lhs: words[1], rhs: words[2] },
        Opcode::Neg => Instruction::Neg { value: words[0] },
        Opcode::Pos => Instruction::Pos { value: words[0] },
        Opcode::Inc => Instruction::Inc { dst: words[0], src: words[1] },
        Opcode::Dec => Instruction::Dec { dst: words[0], src: words[1] },
        Opcode::BitOr => Instruction::BitOr { dst: words[0], lhs: words[1], rhs: words[2] },
        Opcode::BitAnd => Instruction::BitAnd { dst: words[0], lhs: words[1], rhs: words[2] },
        Opcode::BitXor => Instruction::BitXor { dst: words[0], lhs: words[1], rhs: words[2] },
        Opcode::BitNot => Instruction::BitNot { value: words[0] },
        Opcode::ShiftLeft => Instruction::ShiftLeft { dst: words[0], lhs: words[1], rhs: words[2] },
        Opcode::ShiftRight => Instruction::ShiftRight { dst: words[0], lhs: words[1], rhs: words[2] },
        Opcode::UnsignedShiftRight => Instruction::UnsignedShiftRight { dst: words[0], lhs: words[1], rhs: words[2] },
        Opcode::StrictEq => Instruction::StrictEq { dst: words[0], lhs: words[1], rhs: words[2] },
        Opcode::StrictNotEq => Instruction::StrictNotEq { dst: words[0], lhs: words[1], rhs: words[2] },
        Opcode::Eq => Instruction::Eq { dst: words[0], lhs: words[1], rhs: words[2] },
        Opcode::NotEq => Instruction::NotEq { dst: words[0], lhs: words[1], rhs: words[2] },
        Opcode::GreaterThan => Instruction::GreaterThan { dst: words[0], lhs: words[1], rhs: words[2] },
        Opcode::GreaterThanOrEq => Instruction::GreaterThanOrEq { dst: words[0], lhs: words[1], rhs: words[2] },
        Opcode::LessThan => Instruction::LessThan { dst: words[0], lhs: words[1], rhs: words[2] },
        Opcode::LessThanOrEq => Instruction::LessThanOrEq { dst: words[0], lhs: words[1], rhs: words[2] },
        Opcode::InstanceOf => Instruction::InstanceOf { dst: words[0], lhs: words[1], rhs: words[2] },
        Opcode::TypeOf => Instruction::TypeOf { value: words[0] },
        Opcode::IsObject => Instruction::IsObject { value: words[0] },
        Opcode::ValueNotNullOrUndefined => Instruction::ValueNotNullOrUndefined { value: words[0] },
        Opcode::LogicalAnd => Instruction::LogicalAnd { address: words[0], value: words[1] },
        Opcode::LogicalOr => Instruction::LogicalOr { address: words[0], value: words[1] },
        Opcode::LogicalNot => Instruction::LogicalNot { value: words[0] },
        Opcode::Coalesce => Instruction::Coalesce { address: words[0], value: words[1] },
        Opcode::Jump => Instruction::Jump { address: words[0] },
        Opcode::JumpIfTrue => Instruction::JumpIfTrue { address: words[0], value: words[1] },
        Opcode::JumpIfFalse => Instruction::JumpIfFalse { address: words[0], value: words[1] },
        Opcode::JumpIfNotLessThan => Instruction::JumpIfNotLessThan { address: words[0], lhs: words[1], rhs: words[2] },
        Opcode::JumpIfNotLessThanOrEqual => Instruction::JumpIfNotLessThanOrEqual { address: words[0], lhs: words[1], rhs: words[2] },
        Opcode::JumpIfNotGreaterThan => Instruction::JumpIfNotGreaterThan { address: words[0], lhs: words[1], rhs: words[2] },
        Opcode::JumpIfNotGreaterThanOrEqual => Instruction::JumpIfNotGreaterThanOrEqual { address: words[0], lhs: words[1], rhs: words[2] },
        Opcode::JumpIfNotEqual => Instruction::JumpIfNotEqual { address: words[0], lhs: words[1], rhs: words[2] },
        Opcode::JumpIfNullOrUndefined => Instruction::JumpIfNullOrUndefined { address: words[0], value: words[1] },
        Opcode::JumpIfNotUndefined => Instruction::JumpIfNotUndefined { address: words[0], value: words[1] },
        Opcode::Case => Instruction::Case { address: words[0], value: words[1], condition: words[2] },
        Opcode::IncrementLoopIteration => Instruction::IncrementLoopIteration,
        Opcode::GetName => Instruction::GetName { dst: words[0], binding_index: words[1] },
        Opcode::GetNameGlobal => Instruction::GetNameGlobal { dst: words[0], binding_index: words[1], ic_index: words[2] },
        Opcode::GetNameOrUndefined => Instruction::GetNameOrUndefined { dst: words[0], binding_index: words[1] },
        Opcode::GetNameAndLocator => Instruction::GetNameAndLocator { dst: words[0], binding_index: words[1] },
        Opcode::GetLocator => Instruction::GetLocator { binding_index: words[0] },
        Opcode::SetName => Instruction::SetName { src: words[0], binding_index: words[1] },
        Opcode::SetNameByLocator => Instruction::SetNameByLocator { src: words[0] },
        Opcode::PutLexicalValue => Instruction::PutLexicalValue { src: words[0], binding_index: words[1] },
        Opcode::DefInitVar => Instruction::DefInitVar { src: words[0], binding_index: words[1] },
        Opcode::DeleteName => Instruction::DeleteName { dst: words[0], binding_index: words[1] },
        Opcode::In => Instruction::In { dst: words[0], lhs: words[1], rhs: words[2] },
        Opcode::ToPropertyKey => Instruction::ToPropertyKey { src: words[0], dst: words[1] },
        Opcode::GetPropertyByName => Instruction::GetPropertyByName { dst: words[0], object: words[1], ic_index: words[2] },
        Opcode::GetPropertyByNameWithThis => Instruction::GetPropertyByNameWithThis { dst: words[0], receiver: words[1], object: words[2], ic_index: words[3] },
        Opcode::GetLengthProperty => Instruction::GetLengthProperty { dst: words[0], object: words[1], ic_index: words[2] },
        Opcode::GetPropertyByValue => Instruction::GetPropertyByValue { dst: words[0], key: words[1], receiver: words[2], object: words[3] },
        Opcode::GetPropertyByValuePush => Instruction::GetPropertyByValuePush { dst: words[0], key: words[1], receiver: words[2], object: words[3] },
        Opcode::SetPropertyByValue => Instruction::SetPropertyByValue { value: words[0], key: words[1], receiver: words[2], object: words[3] },
        Opcode::SetPropertyByName => Instruction::SetPropertyByName { value: words[0], object: words[1], ic_index: words[2] },
        Opcode::DefineOwnPropertyByName => Instruction::DefineOwnPropertyByName { object: words[0], value: words[1], name_index: words[2] },
        Opcode::DefineOwnPropertyByValue => Instruction::DefineOwnPropertyByValue { value: words[0], key: words[1], object: words[2] },
        Opcode::DeletePropertyByName => Instruction::DeletePropertyByName { object: words[0], name_index: words[1] },
        Opcode::DeletePropertyByValue => Instruction::DeletePropertyByValue { object: words[0], key: words[1] },
        Opcode::GetPrototype => Instruction::GetPrototype { object: words[0] },
        Opcode::SetPrototype => Instruction::SetPrototype { object: words[0], prototype: words[1] },
        Opcode::StoreLiteral => Instruction::StoreLiteral { dst: words[0], index: words[1] },
        Opcode::StoreEmptyObject => Instruction::StoreEmptyObject { dst: words[0] },
        Opcode::StoreNewArray => Instruction::StoreNewArray { dst: words[0] },
        Opcode::StoreRegexp => Instruction::StoreRegexp { dst: words[0], pattern_index: words[1], flags_index: words[2] },
        Opcode::PushValueToArray => Instruction::PushValueToArray { value: words[0], array: words[1] },
        Opcode::PushElisionToArray => Instruction::PushElisionToArray { array: words[0] },
        Opcode::GetFunction => Instruction::GetFunction { dst: words[0], index: words[1] },
        Opcode::Call => Instruction::Call { argument_count: words[0] },
        Opcode::New => Instruction::New { argument_count: words[0] },
        Opcode::PushScope => Instruction::PushScope { index: words[0] },
        Opcode::CreateUnmappedArgumentsObject => Instruction::CreateUnmappedArgumentsObject { dst: words[0] },
        Opcode::RestParameterInit => Instruction::RestParameterInit { dst: words[0] },
        Opcode::SetRegisterFromAccumulator => Instruction::SetRegisterFromAccumulator { dst: words[0] },
        Opcode::Throw => Instruction::Throw { src: words[0] },
        Opcode::ThrowNewTypeError => Instruction::ThrowNewTypeError { message: words[0] },
        Opcode::ThrowNewReferenceError => Instruction::ThrowNewReferenceError { message: words[0] },
        Opcode::ThrowMutateImmutable => Instruction::ThrowMutateImmutable { index: words[0] },
        Opcode::CheckReturn => Instruction::CheckReturn,
        Opcode::Return => Instruction::Return,
        Opcode::Other(byte) => Instruction::Other { byte },
    }
}

/// Reads `raw`, which is below `size`, as a two's complement number.
fn signed(raw: u64, size: u64) -> (value: i64)
    requires
        raw < size <= 0x1_0000_0000,
        size % 2 == 0,
    ensures
        -(size / 2) <= value < size / 2,
        raw == (if value < 0 { value + size } else { value as int }),
{
    if raw < size / 2 {
        raw as i64
    } else {
        raw as i64 - size as i64
    }
}

proof fn words_encoding_len(words: Seq<u32>)
    ensures
        words_encoding(words).len() == 4 * words.len(),
    decreases words.len(),
{
    if words.len() > 0 {
        words_encoding_len(words.drop_last());
        le_bytes_len(words.last() as nat, 4);
    }
}

/// What an encoding starts with, and how long it is, depend on the operation alone.
pub proof fn encoding_starts_with_opcode(instruction: Instruction)
    ensures
        instruction.words().len() == spec_word_count(instruction.spec_opcode()),
        instruction.immediate().len() == spec_immediate_len(instruction.spec_opcode()),
        instruction.encoding()[0] == instruction.spec_opcode().byte(),
        instruction.encoding().len() == 1 + 4 * spec_word_count(instruction.spec_opcode())
            + spec_immediate_len(instruction.spec_opcode()),
{
    words_encoding_len(instruction.words());
    match instruction {
        Instruction::StoreInt8 { value, .. } => le_bytes_len(wrapped(value as int, 1), 1),
        Instruction::StoreInt16 { value, .. } => le_bytes_len(wrapped(value as int, 2), 2),
        Instruction::StoreInt32 { value, .. } => le_bytes_len(wrapped(value as int, 4), 4),
        Instruction::StoreFloat { bits, .. } => le_bytes_len(bits as nat, 4),
        Instruction::StoreDouble { bits, .. } => le_bytes_len(bits as nat, 8),
        _ => {},
    }
}

proof fn words_encoding_is_injective(a: Seq<u32>, b: Seq<u32>)
    requires
        a.len() == b.len(),
        words_encoding(a) == words_encoding(b),
    ensures
        a == b,
    decreases a.len(),
{
    if a.len() > 0 {
        words_encoding_len(a.drop_last());
        words_encoding_len(b.drop_last());
        le_bytes_len(a.last() as nat, 4);
        le_bytes_len(b.last() as nat, 4);
        let cut = words_encoding(a.drop_last()).len() as int;
        assert(words_encoding(a).take(cut) =~= words_encoding(a.drop_last()));
        assert(words_encoding(b).take(cut) =~= words_encoding(b.drop_last()));
        assert(words_encoding(a).skip(cut) =~= le_bytes(a.last() as nat, 4));
        assert(words_encoding(b).skip(cut) =~= le_bytes(b.last() as nat, 4));
        words_encoding_is_injective(a.drop_last(), b.drop_last());
        pow256_values();
        le_value_of_le_bytes(a.last() as nat, 4);
        le_value_of_le_bytes(b.last() as nat, 4);
        assert(a =~= a.drop_last().push(a.last()));
        assert(b =~= b.drop_last().push(b.last()));
    } else {
        assert(a =~= b);
    }
}

/// The immediate bytes determine the immediate.
proof fn parts_determine_instruction(a: Instruction, b: Instruction)
    requires
        a.spec_opcode() == b.spec_opcode(),
        a.words() == b.words(),
        a.immediate() == b.immediate(),
    ensures
        a == b,
{
    pow256_values();
    match (a, b) {
        (Instruction::StoreInt8 { value: v, .. }, Instruction::StoreInt8 { value: w, .. }) => {
            le_value_of_le_bytes(wrapped(v as int, 1), 1);
            le_value_of_le_bytes(wrapped(w as int, 1), 1);
        },
        (Instruction::StoreInt16 { value: v, .. }, Instruction::StoreInt16 { value: w, .. }) => {
            le_value_of_le_bytes(wrapped(v as int, 2), 2);
            le_value_of_le_bytes(wrapped(w as int, 2), 2);
        },
        (Instruction::StoreInt32 { value: v, .. }, Instruction::StoreInt32 { value: w, .. }) => {
            le_value_of_le_bytes(wrapped(v as int, 4), 4);
            le_value_of_le_bytes(wrapped(w as int, 4), 4);
        },
        (Instruction::StoreFloat { bits: v, .. }, Instruction::StoreFloat { bits: w, .. }) => {
            le_value_of_le_bytes(v as nat, 4);
            le_value_of_le_bytes(w as nat, 4);
        },
        (Instruction::StoreDouble { bits: v, .. }, Instruction::StoreDouble { bits: w, .. }) => {
            le_value_of_le_bytes(v as nat, 8);
            le_value_of_le_bytes(w as nat, 8);
        },
        _ => {},
    }
    assert(a.words()[0] == b.words()[0]);
    assert(a.words()[1] == b.words()[1]);
    assert(a.words()[2] == b.words()[2]);
    assert(a.words()[3] == b.words()[3]);
}

/// No encoding is a proper prefix of another: bytes that start with the encodings
/// of two instructions start with those of one and the same.
pub proof fn encoding_is_prefix_free(a: Instruction, b: Instruction, bytes: Seq<u8>)
    requires
        a.wf(),
        b.wf(),
        a.encoding().is_prefix_of(bytes),
        b.encoding().is_prefix_of(bytes),
    ensures
        a == b,
{
    encoding_starts_with_opcode(a);
    encoding_starts_with_opcode(b);
    assert(bytes[0] == a.encoding()[0]);
    assert(bytes[0] == b.encoding()[0]);
    opcode_bytes_are_distinct(a.spec_opcode(), b.spec_opcode());
    assert(a.encoding() =~= b.encoding());
    words_encoding_len(a.words());
    words_encoding_len(b.words());
    let cut = 1 + words_encoding(a.words()).len() as int;
    assert(a.encoding().subrange(1, cut) =~= words_encoding(a.words()));
    assert(b.encoding().subrange(1, cut) =~= words_encoding(b.words()));
    assert(a.encoding().skip(cut) =~= a.immediate());
    assert(b.encoding().skip(cut) =~= b.immediate());
    words_encoding_is_injective(a.words(), b.words());
    parts_determine_instruction(a, b);
}

/// The encodings of words lie one after the other.
proof fn word_lies_at(words: Seq<u32>, i: int)
    requires
        0 <= i < words.len(),
    ensures
        words_encoding(words).subrange(4 * i, 4 * i + 4) == le_bytes(words[i] as nat, 4),
    decreases words.len(),
{
    words_encoding_len(words);
    words_encoding_len(words.drop_last());
    le_bytes_len(words.last() as nat, 4);
    if i < words.len() - 1 {
        word_lies_at(words.drop_last(), i);
        assert(words_encoding(words).subrange(4 * i, 4 * i + 4) =~= words_encoding(
            words.drop_last(),
        ).subrange(4 * i, 4 * i + 4));
    } else {
        assert(words_encoding(words).subrange(4 * i, 4 * i + 4) =~= le_bytes(
            words.last() as nat,
            4,
        ));
    }
}

/// The first byte of an encoding tells the operation, and the words follow, four bytes each.
pub proof fn words_are_read_off_encoding(instruction: Instruction, i: int)
    requires
        0 <= i < instruction.words().len(),
    ensures
        instruction.encoding().len() >= 5 + 4 * i,
        instruction.encoding()[0] == instruction.spec_opcode().byte(),
        le_value(instruction.encoding().subrange(1 + 4 * i, 5 + 4 * i))
            == instruction.words()[i],
{
    let words = instruction.words();
    words_encoding_len(words);
    word_lies_at(words, i);
    assert(instruction.encoding().subrange(1 + 4 * i, 5 + 4 * i) =~= words_encoding(
        words,
    ).subrange(4 * i, 4 * i + 4));
    pow256_values();
    le_value_of_le_bytes(words[i] as nat, 4);
}

/// Constants are encoded behind their register, in as many bytes as they have, and integers
/// modulo two to the number of their bits.
pub proof fn constants_are_encoded_modulo(
    dst: u32,
    small: i8,
    medium: i16,
    large: i32,
    float: u32,
    double: u64,
)
    ensures
        ({
            let bytes = Instruction::StoreInt8 { dst, value: small }.encoding();
            bytes.len() == 6 && le_value(bytes.skip(5)) == small as int % 0x100
        }),
        ({
            let bytes = Instruction::StoreInt16 { dst, value: medium }.encoding();
            bytes.len() == 7 && le_value(bytes.skip(5)) == medium as int % 0x1_0000
        }),
        ({
            let bytes = Instruction::StoreInt32 { dst, value: large }.encoding();
            bytes.len() == 9 && le_value(bytes.skip(5)) == large as int % 0x1_0000_0000
        }),
        ({
            let bytes = Instruction::StoreFloat { dst, bits: float }.encoding();
            bytes.len() == 9 && le_value(bytes.skip(5)) == float
        }),
        ({
            let bytes = Instruction::StoreDouble { dst, bits: double }.encoding();
            bytes.len() == 13 && le_value(bytes.skip(5)) == double
        }),
{
    pow256_values();
    let d = Instruction::StoreFloat { dst, bits: float };
    let e = Instruction::StoreDouble { dst, bits: double };
    encoding_starts_with_opcode(d);
    encoding_starts_with_opcode(e);
    words_encoding_len(d.words());
    words_encoding_len(e.words());
    assert(d.encoding().skip(5) =~= d.immediate());
    assert(e.encoding().skip(5) =~= e.immediate());
    le_value_of_le_bytes(float as nat, 4);
    le_value_of_le_bytes(double as nat, 8);
    let a = Instruction::StoreInt8 { dst, value: small };
    let b = Instruction::StoreInt16 { dst, value: medium };
    let c = Instruction::StoreInt32 { dst, value: large };
    encoding_starts_with_opcode(a);
    encoding_starts_with_opcode(b);
    encoding_starts_with_opcode(c);
    words_encoding_len(a.words());
    words_encoding_len(b.words());
    words_encoding_len(c.words());
    assert(a.encoding().skip(5) =~= a.immediate());
    assert(b.encoding().skip(5) =~= b.immediate());
    assert(c.encoding().skip(5) =~= c.immediate());
    le_value_of_le_bytes(wrapped(small as int, 1), 1);
    le_value_of_le_bytes(wrapped(medium as int, 2), 2);
    le_value_of_le_bytes(wrapped(large as int, 4), 4);
    assert(wrapped(small as int, 1) == small as int % 0x100);
    assert(wrapped(medium as int, 2) == medium as int % 0x1_0000);
    assert(wrapped(large as int, 4) == large as int % 0x1_0000_0000);
}

} // verus!
