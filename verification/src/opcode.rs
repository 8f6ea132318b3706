//! Operation codes and the byte that stands for each of them.

use vstd::prelude::*;

verus! {

/// How many operation codes have a name. Their bytes are `0..NAMED_OPCODES`;
/// every byte from here on stands for an operation that has no name here.
pub const NAMED_OPCODES: u8 = 110;

/// The operation of a bytecode instruction.
#[derive(Clone, Copy, Debug, PartialEq, Eq, Structural)]
pub enum Opcode {
    // Data movement and constants
    Move,
    StoreZero,
    StoreOne,
    StoreInt8,
    StoreInt16,
    StoreInt32,
    StoreFloat,
    StoreDouble,
    StoreNan,
    StorePositiveInfinity,
    StoreNegativeInfinity,
    StoreNull,
    StoreTrue,
    StoreFalse,
    StoreUndefined,
    GetArgument,
    This,
    // Stack and accumulator
    SetAccumulator,
    PushFromRegister,
    PopIntoRegister,
    Pop,
    // Arithmetic
    Add,
    Sub,
    Mul,
    Div,
    Mod,
    Pow,
    Neg,
    Pos,
    Inc,
    Dec,
    // Bitwise operators
    BitOr,
    BitAnd,
    BitXor,
    BitNot,
    ShiftLeft,
    ShiftRight,
    UnsignedShiftRight,
    // Comparison
    StrictEq,
    StrictNotEq,
    Eq,
    NotEq,
    GreaterThan,
    GreaterThanOrEq,
    LessThan,
    LessThanOrEq,
    InstanceOf,
    // Type checks
    TypeOf,
    IsObject,
    ValueNotNullOrUndefined,
    // Logical operators
    LogicalAnd,
    LogicalOr,
    LogicalNot,
    Coalesce,
    // Control flow
    Jump,
    JumpIfTrue,
    JumpIfFalse,
    JumpIfNotLessThan,
    JumpIfNotLessThanOrEqual,
    JumpIfNotGreaterThan,
    JumpIfNotGreaterThanOrEqual,
    JumpIfNotEqual,
    JumpIfNullOrUndefined,
    JumpIfNotUndefined,
    Case,
    IncrementLoopIteration,
    // Variable and binding access
    GetName,
    GetNameGlobal,
    GetNameOrUndefined,
    GetNameAndLocator,
    GetLocator,
    SetName,
    SetNameByLocator,
    PutLexicalValue,
    DefInitVar,
    DeleteName,
    In,
    ToPropertyKey,
    // Property access
    GetPropertyByName,
    GetPropertyByNameWithThis,
    GetLengthProperty,
    GetPropertyByValue,
    GetPropertyByValuePush,
    SetPropertyByValue,
    SetPropertyByName,
    DefineOwnPropertyByName,
    DefineOwnPropertyByValue,
    DeletePropertyByName,
    DeletePropertyByValue,
    GetPrototype,
    SetPrototype,
    // Object and array creation
    StoreLiteral,
    StoreEmptyObject,
    StoreNewArray,
    StoreRegexp,
    PushValueToArray,
    PushElisionToArray,
    // Functions
    GetFunction,
    Call,
    New,
    // Scope
    PushScope,
    CreateUnmappedArgumentsObject,
    RestParameterInit,
    SetRegisterFromAccumulator,
    // Errors
    Throw,
    ThrowNewTypeError,
    ThrowNewReferenceError,
    ThrowMutateImmutable,
    // Return
    CheckReturn,
    Return,
    /// An operation without a name of its own, known only by its byte.
    Other(u8),
}

impl Opcode {
    /// An unnamed operation does not use the byte of a named one.
    pub open spec fn wf(self) -> bool {
        self matches Opcode::Other(byte) ==> byte >= NAMED_OPCODES
    }

    /// The byte that an instruction with this operation starts with.
    pub open spec fn byte(self) -> u8 {
        match self {
            Opcode::Move => 0,
            Opcode::StoreZero => 1,
            Opcode::StoreOne => 2,
            Opcode::StoreInt8 => 3,
            Opcode::StoreInt16 => 4,
            Opcode::StoreInt32 => 5,
            Opcode::StoreFloat => 6,
            Opcode::StoreDouble => 7,
            Opcode::StoreNan => 8,
            Opcode::StorePositiveInfinity => 9,
            Opcode::StoreNegativeInfinity => 10,
            Opcode::StoreNull => 11,
            Opcode::StoreTrue => 12,
            Opcode::StoreFalse => 13,
            Opcode::StoreUndefined => 14,
            Opcode::GetArgument => 15,
            Opcode::This => 16,
            Opcode::SetAccumulator => 17,
            Opcode::PushFromRegister => 18,
            Opcode::PopIntoRegister => 19,
            Opcode::Pop => 20,
            Opcode::Add => 21,
            Opcode::Sub => 22,
            Opcode::Mul => 23,
            Opcode::Div => 24,
            Opcode::Mod => 25,
            Opcode::Pow => 26,
            Opcode::Neg => 27,
            Opcode::Pos => 28,
            Opcode::Inc => 29,
            Opcode::Dec => 30,
            Opcode::BitOr => 31,
            Opcode::BitAnd => 32,
            Opcode::BitXor => 33,
            Opcode::BitNot => 34,
            Opcode::ShiftLeft => 35,
            Opcode::ShiftRight => 36,
            Opcode::UnsignedShiftRight => 37,
            Opcode::StrictEq => 38,
            Opcode::StrictNotEq => 39,
            Opcode::Eq => 40,
            Opcode::NotEq => 41,
            Opcode::GreaterThan => 42,
            Opcode::GreaterThanOrEq => 43,
            Opcode::LessThan => 44,
            Opcode::LessThanOrEq => 45,
            Opcode::InstanceOf => 46,
            Opcode::TypeOf => 47,
            Opcode::IsObject => 48,
            Opcode::ValueNotNullOrUndefined => 49,
            Opcode::LogicalAnd => 50,
            Opcode::LogicalOr => 51,
            Opcode::LogicalNot => 52,
            Opcode::Coalesce => 53,
            Opcode::Jump => 54,
            Opcode::JumpIfTrue => 55,
            Opcode::JumpIfFalse => 56,
            Opcode::JumpIfNotLessThan => 57,
            Opcode::JumpIfNotLessThanOrEqual => 58,
            Opcode::JumpIfNotGreaterThan => 59,
            Opcode::JumpIfNotGreaterThanOrEqual => 60,
            Opcode::JumpIfNotEqual => 61,
            Opcode::JumpIfNullOrUndefined => 62,
            Opcode::JumpIfNotUndefined => 63,
            Opcode::Case => 64,
            Opcode::IncrementLoopIteration => 65,
            Opcode::GetName => 66,
            Opcode::GetNameGlobal => 67,
            Opcode::GetNameOrUndefined => 68,
            Opcode::GetNameAndLocator => 69,
            Opcode::GetLocator => 70,
            Opcode::SetName => 71,
            Opcode::SetNameByLocator => 72,
            Opcode::PutLexicalValue => 73,
            Opcode::DefInitVar => 74,
            Opcode::DeleteName => 75,
            Opcode::In => 76,
            Opcode::ToPropertyKey => 77,
            Opcode::GetPropertyByName => 78,
            Opcode::GetPropertyByNameWithThis => 79,
            Opcode::GetLengthProperty => 80,
            Opcode::GetPropertyByValue => 81,
            Opcode::GetPropertyByValuePush => 82,
            Opcode::SetPropertyByValue => 83,
            Opcode::SetPropertyByName => 84,
            Opcode::DefineOwnPropertyByName => 85,
            Opcode::DefineOwnPropertyByValue => 86,
            Opcode::DeletePropertyByName => 87,
            Opcode::DeletePropertyByValue => 88,
            Opcode::GetPrototype => 89,
            Opcode::SetPrototype => 90,
            Opcode::StoreLiteral => 91,
            Opcode::StoreEmptyObject => 92,
            Opcode::StoreNewArray => 93,
            Opcode::StoreRegexp => 94,
            Opcode::PushValueToArray => 95,
            Opcode::PushElisionToArray => 96,
            Opcode::GetFunction => 97,
            Opcode::Call => 98,
            Opcode::New => 99,
            Opcode::PushScope => 100,
            Opcode::CreateUnmappedArgumentsObject => 101,
            Opcode::RestParameterInit => 102,
            Opcode::SetRegisterFromAccumulator => 103,
            Opcode::Throw => 104,
            Opcode::ThrowNewTypeError => 105,
            Opcode::ThrowNewReferenceError => 106,
            Opcode::ThrowMutateImmutable => 107,
            Opcode::CheckReturn => 108,
            Opcode::Return => 109,
            Opcode::Other(byte) => byte,
        }
    }

    /// Returns the byte that an instruction with this operation starts with.
    pub fn to_byte(self) -> (byte: u8)
        ensures
            byte == self.byte(),
    {
        match self {
            Opcode::Move => 0,
            Opcode::StoreZero => 1,
            Opcode::StoreOne => 2,
            Opcode::StoreInt8 => 3,
            Opcode::StoreInt16 => 4,
            Opcode::StoreInt32 => 5,
            Opcode::StoreFloat => 6,
            Opcode::StoreDouble => 7,
            Opcode::StoreNan => 8,
            Opcode::StorePositiveInfinity => 9,
            Opcode::StoreNegativeInfinity => 10,
            Opcode::StoreNull => 11,
            Opcode::StoreTrue => 12,
            Opcode::StoreFalse => 13,
            Opcode::StoreUndefined => 14,
            Opcode::GetArgument => 15,
            Opcode::This => 16,
            Opcode::SetAccumulator => 17,
            Opcode::PushFromRegister => 18,
            Opcode::PopIntoRegister => 19,
            Opcode::Pop => 20,
            Opcode::Add => 21,
            Opcode::Sub => 22,
            Opcode::Mul => 23,
            Opcode::Div => 24,
            Opcode::Mod => 25,
            Opcode::Pow => 26,
            Opcode::Neg => 27,
            Opcode::Pos => 28,
            Opcode::Inc => 29,
            Opcode::Dec => 30,
            Opcode::BitOr => 31,
            Opcode::BitAnd => 32,
            Opcode::BitXor => 33,
            Opcode::BitNot => 34,
            Opcode::ShiftLeft => 35,
            Opcode::ShiftRight => 36,
            Opcode::UnsignedShiftRight => 37,
            Opcode::StrictEq => 38,
            Opcode::StrictNotEq => 39,
            Opcode::Eq => 40,
            Opcode::NotEq => 41,
            Opcode::GreaterThan => 42,
            Opcode::GreaterThanOrEq => 43,
            Opcode::LessThan => 44,
            Opcode::LessThanOrEq => 45,
            Opcode::InstanceOf => 46,
            Opcode::TypeOf => 47,
            Opcode::IsObject => 48,
            Opcode::ValueNotNullOrUndefined => 49,
            Opcode::LogicalAnd => 50,
            Opcode::LogicalOr => 51,
            Opcode::LogicalNot => 52,
            Opcode::Coalesce => 53,
            Opcode::Jump => 54,
            Opcode::JumpIfTrue => 55,
            Opcode::JumpIfFalse => 56,
            Opcode::JumpIfNotLessThan => 57,
            Opcode::JumpIfNotLessThanOrEqual => 58,
            Opcode::JumpIfNotGreaterThan => 59,
            Opcode::JumpIfNotGreaterThanOrEqual => 60,
            Opcode::JumpIfNotEqual => 61,
            Opcode::JumpIfNullOrUndefined => 62,
            Opcode::JumpIfNotUndefined => 63,
            Opcode::Case => 64,
            Opcode::IncrementLoopIteration => 65,
            Opcode::GetName => 66,
            Opcode::GetNameGlobal => 67,
            Opcode::GetNameOrUndefined => 68,
            Opcode::GetNameAndLocator => 69,
            Opcode::GetLocator => 70,
            Opcode::SetName => 71,
            Opcode::SetNameByLocator => 72,
            Opcode::PutLexicalValue => 73,
            Opcode::DefInitVar => 74,
            Opcode::DeleteName => 75,
            Opcode::In => 76,
            Opcode::ToPropertyKey => 77,
            Opcode::GetPropertyByName => 78,
            Opcode::GetPropertyByNameWithThis => 79,
            Opcode::GetLengthProperty => 80,
            Opcode::GetPropertyByValue => 81,
            Opcode::GetPropertyByValuePush => 82,
            Opcode::SetPropertyByValue => 83,
            Opcode::SetPropertyByName => 84,
            Opcode::DefineOwnPropertyByName => 85,
            Opcode::DefineOwnPropertyByValue => 86,
            Opcode::DeletePropertyByName => 87,
            Opcode::DeletePropertyByValue => 88,
            Opcode::GetPrototype => 89,
            Opcode::SetPrototype => 90,
            Opcode::StoreLiteral => 91,
            Opcode::StoreEmptyObject => 92,
            Opcode::StoreNewArray => 93,
            Opcode::StoreRegexp => 94,
            Opcode::PushValueToArray => 95,
            Opcode::PushElisionToArray => 96,
            Opcode::GetFunction => 97,
            Opcode::Call => 98,
            Opcode::New => 99,
            Opcode::PushScope => 100,
            Opcode::CreateUnmappedArgumentsObject => 101,
            Opcode::RestParameterInit => 102,
            Opcode::SetRegisterFromAccumulator => 103,
            Opcode::Throw => 104,
            Opcode::ThrowNewTypeError => 105,
            Opcode::ThrowNewReferenceError => 106,
            Opcode::ThrowMutateImmutable => 107,
            Opcode::CheckReturn => 108,
            Opcode::Return => 109,
            Opcode::Other(byte) => byte,
        }
    }

    /// Returns the operation that a byte stands for. Every byte stands for one.
    pub fn from_byte(byte: u8) -> (opcode: Opcode)
        ensures
            opcode.wf(),
            opcode.byte() == byte,
    {
        match byte {
            0 => Opcode::Move,
            1 => Opcode::StoreZero,
            2 => Opcode::StoreOne,
            3 => Opcode::StoreInt8,
            4 => Opcode::StoreInt16,
            5 => Opcode::StoreInt32,
            6 => Opcode::StoreFloat,
            7 => Opcode::StoreDouble,
            8 => Opcode::StoreNan,
            9 => Opcode::StorePositiveInfinity,
            10 => Opcode::StoreNegativeInfinity,
            11 => Opcode::StoreNull,
            12 => Opcode::StoreTrue,
            13 => Opcode::StoreFalse,
            14 => Opcode::StoreUndefined,
            15 => Opcode::GetArgument,
            16 => Opcode::This,
            17 => Opcode::SetAccumulator,
            18 => Opcode::PushFromRegister,
            19 => Opcode::PopIntoRegister,
            20 => Opcode::Pop,
            21 => Opcode::Add,
            22 => Opcode::Sub,
            23 => Opcode::Mul,
            24 => Opcode::Div,
            25 => Opcode::Mod,
            26 => Opcode::Pow,
            27 => Opcode::Neg,
            28 => Opcode::Pos,
            29 => Opcode::Inc,
            30 => Opcode::Dec,
            31 => Opcode::BitOr,
            32 => Opcode::BitAnd,
            33 => Opcode::BitXor,
            34 => Opcode::BitNot,
            35 => Opcode::ShiftLeft,
            36 => Opcode::ShiftRight,
            37 => Opcode::UnsignedShiftRight,
            38 => Opcode::StrictEq,
            39 => Opcode::StrictNotEq,
            40 => Opcode::Eq,
            41 => Opcode::NotEq,
            42 => Opcode::GreaterThan,
            43 => Opcode::GreaterThanOrEq,
            44 => Opcode::LessThan,
            45 => Opcode::LessThanOrEq,
            46 => Opcode::InstanceOf,
            47 => Opcode::TypeOf,
            48 => Opcode::IsObject,
            49 => Opcode::ValueNotNullOrUndefined,
            50 => Opcode::LogicalAnd,
            51 => Opcode::LogicalOr,
            52 => Opcode::LogicalNot,
            53 => Opcode::Coalesce,
            54 => Opcode::Jump,
            55 => Opcode::JumpIfTrue,
            56 => Opcode::JumpIfFalse,
            57 => Opcode::JumpIfNotLessThan,
            58 => Opcode::JumpIfNotLessThanOrEqual,
            59 => Opcode::JumpIfNotGreaterThan,
            60 => Opcode::JumpIfNotGreaterThanOrEqual,
            61 => Opcode::JumpIfNotEqual,
            62 => Opcode::JumpIfNullOrUndefined,
            63 => Opcode::JumpIfNotUndefined,
            64 => Opcode::Case,
            65 => Opcode::IncrementLoopIteration,
            66 => Opcode::GetName,
            67 => Opcode::GetNameGlobal,
            68 => Opcode::GetNameOrUndefined,
            69 => Opcode::GetNameAndLocator,
            70 => Opcode::GetLocator,
            71 => Opcode::SetName,
            72 => Opcode::SetNameByLocator,
            73 => Opcode::PutLexicalValue,
            74 => Opcode::DefInitVar,
            75 => Opcode::DeleteName,
            76 => Opcode::In,
            77 => Opcode::ToPropertyKey,
            78 => Opcode::GetPropertyByName,
            79 => Opcode::GetPropertyByNameWithThis,
            80 => Opcode::GetLengthProperty,
            81 => Opcode::GetPropertyByValue,
            82 => Opcode::GetPropertyByValuePush,
            83 => Opcode::SetPropertyByValue,
            84 => Opcode::SetPropertyByName,
            85 => Opcode::DefineOwnPropertyByName,
            86 => Opcode::DefineOwnPropertyByValue,
            87 => Opcode::DeletePropertyByName,
            88 => Opcode::DeletePropertyByValue,
            89 => Opcode::GetPrototype,
            90 => Opcode::SetPrototype,
            91 => Opcode::StoreLiteral,
            92 => Opcode::StoreEmptyObject,
            93 => Opcode::StoreNewArray,
            94 => Opcode::StoreRegexp,
            95 => Opcode::PushValueToArray,
            96 => Opcode::PushElisionToArray,
            97 => Opcode::GetFunction,
            98 => Opcode::Call,
            99 => Opcode::New,
            100 => Opcode::PushScope,
            101 => Opcode::CreateUnmappedArgumentsObject,
            102 => Opcode::RestParameterInit,
            103 => Opcode::SetRegisterFromAccumulator,
            104 => Opcode::Throw,
            105 => Opcode::ThrowNewTypeError,
            106 => Opcode::ThrowNewReferenceError,
            107 => Opcode::ThrowMutateImmutable,
            108 => Opcode::CheckReturn,
            109 => Opcode::Return,
            _ => Opcode::Other(byte),
        }
    }
}

/// No two operations share a byte.
pub proof fn opcode_bytes_are_distinct(a: Opcode, b: Opcode)
    requires
        a.wf(),
        b.wf(),
        a.byte() == b.byte(),
    ensures
        a == b,
{
}

} // verus!
