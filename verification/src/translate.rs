//! What bytecode is translated into.
//!
//! Each instruction gets a block of its own, which calls a runtime helper and goes on with
//! the block of the next instruction. Jumps go from block to block. The helper is the one
//! that implements the instruction; where there is none, it is the one that has the
//! interpreter carry out this single instruction. When a helper leaves an exception pending,
//! the function ends.

use vstd::prelude::*;

use crate::backend::{
    low_bits, BlockBody, Body, Declaration, FunctionLinkage, Import, Inst, ModuleState,
    SignatureTypes,
};
use crate::bytecode::{pc_of, program_encoding};
use crate::instruction::{encoding_starts_with_opcode, Instruction};
use crate::ir::{jump_target, jump_target_is_read_off_encoding, spec_jump_target};
use crate::jumps::index_of;
use crate::little_endian::le_value;
use crate::names::function_name;

verus! {

/// The runtime helpers that compiled code calls.
#[derive(Clone, Copy, Debug, PartialEq, Eq, Structural)]
pub enum Helper {
    StoreZero,
    StoreOne,
    StoreInt8,
    StoreInt16,
    StoreInt32,
    Move,
    GetArgument,
    SetAccumulator,
    PushFromRegister,
    PopIntoRegister,
    StrictEq,
    StrictNotEq,
    Add,
    Sub,
    Mul,
    Div,
    Mod,
    Pow,
    BitOr,
    BitAnd,
    BitXor,
    ShiftLeft,
    ShiftRight,
    UnsignedShiftRight,
    LessThan,
    LessThanOrEq,
    GreaterThan,
    GreaterThanOrEq,
    Eq,
    NotEq,
    Inc,
    Dec,
    NotLessThan,
    GetName,
    GetNameGlobal,
    GetPropertyByName,
    GetLengthProperty,
    GetPropertyByValue,
    GetPropertyByValuePush,
    SetPropertyByValue,
    Call,
    IncrementLoopIteration,
    Interpret,
    CheckReturn,
    CheckReturnAndReturn,
}

/// How many helpers there are.
pub const HELPER_COUNT: u32 = 45;

impl Helper {
    /// The place of the helper in the order in which they are declared.
    #[verifier::opaque]
    pub open spec fn index(self) -> int {
        match self {
            Helper::StoreZero => 0,
            Helper::StoreOne => 1,
            Helper::StoreInt8 => 2,
            Helper::StoreInt16 => 3,
            Helper::StoreInt32 => 4,
            Helper::Move => 5,
            Helper::GetArgument => 6,
            Helper::SetAccumulator => 7,
            Helper::PushFromRegister => 8,
            Helper::PopIntoRegister => 9,
            Helper::StrictEq => 10,
            Helper::StrictNotEq => 11,
            Helper::Add => 12,
            Helper::Sub => 13,
            Helper::Mul => 14,
            Helper::Div => 15,
            Helper::Mod => 16,
            Helper::Pow => 17,
            Helper::BitOr => 18,
            Helper::BitAnd => 19,
            Helper::BitXor => 20,
            Helper::ShiftLeft => 21,
            Helper::ShiftRight => 22,
            Helper::UnsignedShiftRight => 23,
            Helper::LessThan => 24,
            Helper::LessThanOrEq => 25,
            Helper::GreaterThan => 26,
            Helper::GreaterThanOrEq => 27,
            Helper::Eq => 28,
            Helper::NotEq => 29,
            Helper::Inc => 30,
            Helper::Dec => 31,
            Helper::NotLessThan => 32,
            Helper::GetName => 33,
            Helper::GetNameGlobal => 34,
            Helper::GetPropertyByName => 35,
            Helper::GetLengthProperty => 36,
            Helper::GetPropertyByValue => 37,
            Helper::GetPropertyByValuePush => 38,
            Helper::SetPropertyByValue => 39,
            Helper::Call => 40,
            Helper::IncrementLoopIteration => 41,
            Helper::Interpret => 42,
            Helper::CheckReturn => 43,
            Helper::CheckReturnAndReturn => 44,
        }
    }

    /// The name of the symbol that the helper is linked by.
    #[verifier::opaque]
    pub open spec fn symbol(self) -> Seq<char> {
        match self {
            Helper::StoreZero => "jit_store_zero"@,
            Helper::StoreOne => "jit_store_one"@,
            Helper::StoreInt8 => "jit_store_int8"@,
            Helper::StoreInt16 => "jit_store_int16"@,
            Helper::StoreInt32 => "jit_store_int32"@,
            Helper::Move => "jit_move"@,
            Helper::GetArgument => "jit_get_argument"@,
            Helper::SetAccumulator => "jit_set_accumulator"@,
            Helper::PushFromRegister => "jit_push_from_register"@,
            Helper::PopIntoRegister => "jit_pop_into_register"@,
            Helper::StrictEq => "jit_strict_eq"@,
            Helper::StrictNotEq => "jit_strict_ne"@,
            Helper::Add => "jit_add"@,
            Helper::Sub => "jit_sub"@,
            Helper::Mul => "jit_mul"@,
            Helper::Div => "jit_div"@,
            Helper::Mod => "jit_mod"@,
            Helper::Pow => "jit_pow"@,
            Helper::BitOr => "jit_bit_or"@,
            Helper::BitAnd => "jit_bit_and"@,
            Helper::BitXor => "jit_bit_xor"@,
            Helper::ShiftLeft => "jit_shl"@,
            Helper::ShiftRight => "jit_shr"@,
            Helper::UnsignedShiftRight => "jit_ushr"@,
            Helper::LessThan => "jit_lt"@,
            Helper::LessThanOrEq => "jit_le"@,
            Helper::GreaterThan => "jit_gt"@,
            Helper::GreaterThanOrEq => "jit_ge"@,
            Helper::Eq => "jit_eq"@,
            Helper::NotEq => "jit_ne"@,
            Helper::Inc => "jit_inc"@,
            Helper::Dec => "jit_dec"@,
            Helper::NotLessThan => "jit_not_less_than"@,
            Helper::GetName => "jit_get_name"@,
            Helper::GetNameGlobal => "jit_get_name_global"@,
            Helper::GetPropertyByName => "jit_get_property_by_name"@,
            Helper::GetLengthProperty => "jit_get_length_property"@,
            Helper::GetPropertyByValue => "jit_get_property_by_value"@,
            Helper::GetPropertyByValuePush => "jit_get_property_by_value_push"@,
            Helper::SetPropertyByValue => "jit_set_property_by_value"@,
            Helper::Call => "jit_call_inner"@,
            Helper::IncrementLoopIteration => "jit_increment_loop_iteration"@,
            Helper::Interpret => "jit_interpret"@,
            Helper::CheckReturn => "jit_check_return"@,
            Helper::CheckReturnAndReturn => "jit_check_return_and_return"@,
        }
    }

    /// How many numbers the helper takes besides the virtual machine.
    #[verifier::opaque]
    pub open spec fn operands(self) -> nat {
        match self {
            Helper::IncrementLoopIteration => 0,
            Helper::CheckReturn => 0,
            Helper::CheckReturnAndReturn => 0,
            Helper::StoreZero => 1,
            Helper::StoreOne => 1,
            Helper::SetAccumulator => 1,
            Helper::PushFromRegister => 1,
            Helper::PopIntoRegister => 1,
            Helper::Call => 1,
            Helper::Interpret => 1,
            Helper::StoreInt8 => 2,
            Helper::StoreInt16 => 2,
            Helper::StoreInt32 => 2,
            Helper::Move => 2,
            Helper::GetArgument => 2,
            Helper::Inc => 2,
            Helper::Dec => 2,
            Helper::NotLessThan => 2,
            Helper::GetName => 2,
            Helper::GetPropertyByValue => 4,
            Helper::GetPropertyByValuePush => 4,
            Helper::SetPropertyByValue => 4,
            _ => 3,
        }
    }

    /// The helper returns a status.
    #[verifier::opaque]
    pub open spec fn has_status(self) -> bool {
        match self {
            Helper::StoreZero => false,
            Helper::StoreOne => false,
            Helper::StoreInt8 => false,
            Helper::StoreInt16 => false,
            Helper::StoreInt32 => false,
            Helper::Move => false,
            Helper::GetArgument => false,
            Helper::SetAccumulator => false,
            Helper::PushFromRegister => false,
            Helper::PopIntoRegister => false,
            Helper::StrictEq => false,
            Helper::StrictNotEq => false,
            _ => true,
        }
    }

    /// The types of what the helper returns: nothing, or a 64-bit status.
    pub open spec fn return_types(self) -> Seq<u16> {
        if self.has_status() {
            seq![64u16]
        } else {
            Seq::empty()
        }
    }

    /// The types of the helper. It takes a pointer to the virtual machine, then 32-bit
    /// numbers.
    pub open spec fn signature(self, ptr: u16) -> SignatureTypes {
        SignatureTypes {
            params: seq![ptr] + Seq::new(self.operands(), |i: int| 32u16),
            returns: self.return_types(),
        }
    }

    /// How the helper is declared in a module.
    pub open spec fn declaration(self, ptr: u16) -> Declaration {
        Declaration {
            name: self.symbol(),
            linkage: FunctionLinkage::Import,
            signature: self.signature(ptr),
        }
    }

    /// Returns the place of the helper in the order in which they are declared.
    pub fn number(self) -> (number: u32)
        ensures
            number == self.index(),
    {
        reveal(Helper::index);
        match self {
            Helper::StoreZero => 0,
            Helper::StoreOne => 1,
            Helper::StoreInt8 => 2,
            Helper::StoreInt16 => 3,
            Helper::StoreInt32 => 4,
            Helper::Move => 5,
            Helper::GetArgument => 6,
            Helper::SetAccumulator => 7,
            Helper::PushFromRegister => 8,
            Helper::PopIntoRegister => 9,
            Helper::StrictEq => 10,
            Helper::StrictNotEq => 11,
            Helper::Add => 12,
            Helper::Sub => 13,
            Helper::Mul => 14,
            Helper::Div => 15,
            Helper::Mod => 16,
            Helper::Pow => 17,
            Helper::BitOr => 18,
            Helper::BitAnd => 19,
            Helper::BitXor => 20,
            Helper::ShiftLeft => 21,
            Helper::ShiftRight => 22,
            Helper::UnsignedShiftRight => 23,
            Helper::LessThan => 24,
            Helper::LessThanOrEq => 25,
            Helper::GreaterThan => 26,
            Helper::GreaterThanOrEq => 27,
            Helper::Eq => 28,
            Helper::NotEq => 29,
            Helper::Inc => 30,
            Helper::Dec => 31,
            Helper::NotLessThan => 32,
            Helper::GetName => 33,
            Helper::GetNameGlobal => 34,
            Helper::GetPropertyByName => 35,
            Helper::GetLengthProperty => 36,
            Helper::GetPropertyByValue => 37,
            Helper::GetPropertyByValuePush => 38,
            Helper::SetPropertyByValue => 39,
            Helper::Call => 40,
            Helper::IncrementLoopIteration => 41,
            Helper::Interpret => 42,
            Helper::CheckReturn => 43,
            Helper::CheckReturnAndReturn => 44,
        }
    }

    /// Returns the helper at a place in the order in which they are declared.
    pub fn at(index: u32) -> (helper: Helper)
        requires
            index < HELPER_COUNT,
        ensures
            helper == helper_at(index as int),
    {
        reveal(helper_at);
        match index {
            0 => Helper::StoreZero,
            1 => Helper::StoreOne,
            2 => Helper::StoreInt8,
            3 => Helper::StoreInt16,
            4 => Helper::StoreInt32,
            5 => Helper::Move,
            6 => Helper::GetArgument,
            7 => Helper::SetAccumulator,
            8 => Helper::PushFromRegister,
            9 => Helper::PopIntoRegister,
            10 => Helper::StrictEq,
            11 => Helper::StrictNotEq,
            12 => Helper::Add,
            13 => Helper::Sub,
            14 => Helper::Mul,
            15 => Helper::Div,
            16 => Helper::Mod,
            17 => Helper::Pow,
            18 => Helper::BitOr,
            19 => Helper::BitAnd,
            20 => Helper::BitXor,
            21 => Helper::ShiftLeft,
            22 => Helper::ShiftRight,
            23 => Helper::UnsignedShiftRight,
            24 => Helper::LessThan,
            25 => Helper::LessThanOrEq,
            26 => Helper::GreaterThan,
            27 => Helper::GreaterThanOrEq,
            28 => Helper::Eq,
            29 => Helper::NotEq,
            30 => Helper::Inc,
            31 => Helper::Dec,
            32 => Helper::NotLessThan,
            33 => Helper::GetName,
            34 => Helper::GetNameGlobal,
            35 => Helper::GetPropertyByName,
            36 => Helper::GetLengthProperty,
            37 => Helper::GetPropertyByValue,
            38 => Helper::GetPropertyByValuePush,
            39 => Helper::SetPropertyByValue,
            40 => Helper::Call,
            41 => Helper::IncrementLoopIteration,
            42 => Helper::Interpret,
            43 => Helper::CheckReturn,
            _ => Helper::CheckReturnAndReturn,
        }
    }

    /// Returns the name of the symbol that the helper is linked by.
    pub fn name(self) -> (name: &'static str)
        ensures
            name@ == self.symbol(),
    {
        reveal(Helper::symbol);
        match self {
            Helper::StoreZero => "jit_store_zero",
            Helper::StoreOne => "jit_store_one",
            Helper::StoreInt8 => "jit_store_int8",
            Helper::StoreInt16 => "jit_store_int16",
            Helper::StoreInt32 => "jit_store_int32",
            Helper::Move => "jit_move",
            Helper::GetArgument => "jit_get_argument",
            Helper::SetAccumulator => "jit_set_accumulator",
            Helper::PushFromRegister => "jit_push_from_register",
            Helper::PopIntoRegister => "jit_pop_into_register",
            Helper::StrictEq => "jit_strict_eq",
            Helper::StrictNotEq => "jit_strict_ne",
            Helper::Add => "jit_add",
            Helper::Sub => "jit_sub",
            Helper::Mul => "jit_mul",
            Helper::Div => "jit_div",
            Helper::Mod => "jit_mod",
            Helper::Pow => "jit_pow",
            Helper::BitOr => "jit_bit_or",
            Helper::BitAnd => "jit_bit_and",
            Helper::BitXor => "jit_bit_xor",
            Helper::ShiftLeft => "jit_shl",
            Helper::ShiftRight => "jit_shr",
            Helper::UnsignedShiftRight => "jit_ushr",
            Helper::LessThan => "jit_lt",
            Helper::LessThanOrEq => "jit_le",
            Helper::GreaterThan => "jit_gt",
            Helper::GreaterThanOrEq => "jit_ge",
            Helper::Eq => "jit_eq",
            Helper::NotEq => "jit_ne",
            Helper::Inc => "jit_inc",
            Helper::Dec => "jit_dec",
            Helper::NotLessThan => "jit_not_less_than",
            Helper::GetName => "jit_get_name",
            Helper::GetNameGlobal => "jit_get_name_global",
            Helper::GetPropertyByName => "jit_get_property_by_name",
            Helper::GetLengthProperty => "jit_get_length_property",
            Helper::GetPropertyByValue => "jit_get_property_by_value",
            Helper::GetPropertyByValuePush => "jit_get_property_by_value_push",
            Helper::SetPropertyByValue => "jit_set_property_by_value",
            Helper::Call => "jit_call_inner",
            Helper::IncrementLoopIteration => "jit_increment_loop_iteration",
            Helper::Interpret => "jit_interpret",
            Helper::CheckReturn => "jit_check_return",
            Helper::CheckReturnAndReturn => "jit_check_return_and_return",
        }
    }

    /// Returns how many numbers the helper takes besides the virtual machine.
    pub fn operand_count(self) -> (count: u32)
        ensures
            count == self.operands(),
    {
        reveal(Helper::operands);
        match self {
            Helper::IncrementLoopIteration
            | Helper::CheckReturn
            | Helper::CheckReturnAndReturn => 0,
            Helper::StoreZero
            | Helper::StoreOne
            | Helper::SetAccumulator
            | Helper::PushFromRegister
            | Helper::PopIntoRegister
            | Helper::Call
            | Helper::Interpret => 1,
            Helper::StoreInt8
            | Helper::StoreInt16
            | Helper::StoreInt32
            | Helper::Move
            | Helper::GetArgument
            | Helper::Inc
            | Helper::Dec
            | Helper::NotLessThan
            | Helper::GetName => 2,
            Helper::GetPropertyByValue
            | Helper::GetPropertyByValuePush
            | Helper::SetPropertyByValue => 4,
            _ => 3,
        }
    }

    /// Tells whether the helper returns a status.
    pub fn returns_status(self) -> (yes: bool)
        ensures
            yes == self.has_status(),
    {
        reveal(Helper::has_status);
        !matches!(
            self,
            Helper::StoreZero
                | Helper::StoreOne
                | Helper::StoreInt8
                | Helper::StoreInt16
                | Helper::StoreInt32
                | Helper::Move
                | Helper::GetArgument
                | Helper::SetAccumulator
                | Helper::PushFromRegister
                | Helper::PopIntoRegister
                | Helper::StrictEq
                | Helper::StrictNotEq
        )
    }
}

/// The helper at a place in the order in which they are declared.
#[verifier::opaque]
pub open spec fn helper_at(index: int) -> Helper {
    if index == 0 {
        Helper::StoreZero
    } else if index == 1 {
        Helper::StoreOne
    } else if index == 2 {
        Helper::StoreInt8
    } else if index == 3 {
        Helper::StoreInt16
    } else if index == 4 {
        Helper::StoreInt32
    } else if index == 5 {
        Helper::Move
    } else if index == 6 {
        Helper::GetArgument
    } else if index == 7 {
        Helper::SetAccumulator
    } else if index == 8 {
        Helper::PushFromRegister
    } else if index == 9 {
        Helper::PopIntoRegister
    } else if index == 10 {
        Helper::StrictEq
    } else if index == 11 {
        Helper::StrictNotEq
    } else if index == 12 {
        Helper::Add
    } else if index == 13 {
        Helper::Sub
    } else if index == 14 {
        Helper::Mul
    } else if index == 15 {
        Helper::Div
    } else if index == 16 {
        Helper::Mod
    } else if index == 17 {
        Helper::Pow
    } else if index == 18 {
        Helper::BitOr
    } else if index == 19 {
        Helper::BitAnd
    } else if index == 20 {
        Helper::BitXor
    } else if index == 21 {
        Helper::ShiftLeft
    } else if index == 22 {
        Helper::ShiftRight
    } else if index == 23 {
        Helper::UnsignedShiftRight
    } else if index == 24 {
        Helper::LessThan
    } else if index == 25 {
        Helper::LessThanOrEq
    } else if index == 26 {
        Helper::GreaterThan
    } else if index == 27 {
        Helper::GreaterThanOrEq
    } else if index == 28 {
        Helper::Eq
    } else if index == 29 {
        Helper::NotEq
    } else if index == 30 {
        Helper::Inc
    } else if index == 31 {
        Helper::Dec
    } else if index == 32 {
        Helper::NotLessThan
    } else if index == 33 {
        Helper::GetName
    } else if index == 34 {
        Helper::GetNameGlobal
    } else if index == 35 {
        Helper::GetPropertyByName
    } else if index == 36 {
        Helper::GetLengthProperty
    } else if index == 37 {
        Helper::GetPropertyByValue
    } else if index == 38 {
        Helper::GetPropertyByValuePush
    } else if index == 39 {
        Helper::SetPropertyByValue
    } else if index == 40 {
        Helper::Call
    } else if index == 41 {
        Helper::IncrementLoopIteration
    } else if index == 42 {
        Helper::Interpret
    } else if index == 43 {
        Helper::CheckReturn
    } else {
        Helper::CheckReturnAndReturn
    }
}

/// The numbers of the helpers, which follow each other in their order: those of the functions
/// in a module, or those of the references to them in a function.
#[derive(Clone, Copy, Debug, PartialEq, Eq, Structural)]
pub struct HelperFuncs {
    /// The number of the first helper.
    pub first: u32,
}

impl HelperFuncs {
    /// There are that many numbers.
    pub open spec fn fits(self) -> bool {
        self.first + HELPER_COUNT <= u32::MAX
    }

    /// The number of a helper.
    pub open spec fn get(self, helper: Helper) -> u32 {
        (self.first + helper.index()) as u32
    }

    /// Returns the number of a helper.
    pub fn number(&self, helper: Helper) -> (number: u32)
        requires
            self.fits(),
        ensures
            number == self.get(helper),
    {
        proof {
            helpers_are_in_order(helper);
        }
        self.first + helper.number()
    }
}

/// The references that the helpers get in a function, or their numbers in a module, where
/// they come first.
pub open spec fn first_refs() -> HelperFuncs {
    HelperFuncs { first: 0 }
}

/// What an instruction is translated into.
pub enum Translation {
    /// A call of a helper that always succeeds, with these numbers.
    Call(Helper, Seq<i64>),
    /// A call of a helper that may leave an exception pending.
    Check(Helper, Seq<i64>),
    /// A call of a helper that may leave an exception pending, or ask to jump to an address.
    Branch(Helper, Seq<i64>, u32),
    /// A jump to an address.
    Jump(u32),
    /// A call of the helper that returns, whose status is the result of the function.
    Finish,
}

/// What the compiler makes of the instruction at a position.
#[verifier::opaque]
pub open spec fn translation(position: int, instruction: Instruction) -> Translation {
    match instruction {
        Instruction::StoreZero { dst } => Translation::Call(Helper::StoreZero, seq![dst as i64]),
        Instruction::StoreOne { dst } => Translation::Call(Helper::StoreOne, seq![dst as i64]),
        Instruction::StoreInt8 { dst, value } => Translation::Call(
            Helper::StoreInt8,
            seq![dst as i64, value as i64],
        ),
        Instruction::StoreInt16 { dst, value } => Translation::Call(
            Helper::StoreInt16,
            seq![dst as i64, value as i64],
        ),
        Instruction::StoreInt32 { dst, value } => Translation::Call(
            Helper::StoreInt32,
            seq![dst as i64, value as i64],
        ),
        Instruction::Move { dst, src } => Translation::Call(
            Helper::Move,
            seq![dst as i64, src as i64],
        ),
        Instruction::GetArgument { index, dst } => Translation::Call(
            Helper::GetArgument,
            seq![index as i64, dst as i64],
        ),
        Instruction::SetAccumulator { src } => Translation::Call(
            Helper::SetAccumulator,
            seq![src as i64],
        ),
        Instruction::PushFromRegister { src } => Translation::Call(
            Helper::PushFromRegister,
            seq![src as i64],
        ),
        Instruction::PopIntoRegister { dst } => Translation::Call(
            Helper::PopIntoRegister,
            seq![dst as i64],
        ),
        Instruction::StrictEq { dst, lhs, rhs } => Translation::Call(
            Helper::StrictEq,
            seq![dst as i64, lhs as i64, rhs as i64],
        ),
        Instruction::StrictNotEq { dst, lhs, rhs } => Translation::Call(
            Helper::StrictNotEq,
            seq![dst as i64, lhs as i64, rhs as i64],
        ),
        Instruction::Add { dst, lhs, rhs } => Translation::Check(
            Helper::Add,
            seq![dst as i64, lhs as i64, rhs as i64],
        ),
        Instruction::Sub { dst, lhs, rhs } => Translation::Check(
            Helper::Sub,
            seq![dst as i64, lhs as i64, rhs as i64],
        ),
        Instruction::Mul { dst, lhs, rhs } => Translation::Check(
            Helper::Mul,
            seq![dst as i64, lhs as i64, rhs as i64],
        ),
        Instruction::Div { dst, lhs, rhs } => Translation::Check(
            Helper::Div,
            seq![dst as i64, lhs as i64, rhs as i64],
        ),
        Instruction::Mod { dst, lhs, rhs } => Translation::Check(
            Helper::Mod,
            seq![dst as i64, lhs as i64, rhs as i64],
        ),
        Instruction::Pow { dst, lhs, rhs } => Translation::Check(
            Helper::Pow,
            seq![dst as i64, lhs as i64, rhs as i64],
        ),
        Instruction::BitOr { dst, lhs, rhs } => Translation::Check(
            Helper::BitOr,
            seq![dst as i64, lhs as i64, rhs as i64],
        ),
        Instruction::BitAnd { dst, lhs, rhs } => Translation::Check(
            Helper::BitAnd,
            seq![dst as i64, lhs as i64, rhs as i64],
        ),
        Instruction::BitXor { dst, lhs, rhs } => Translation::Check(
            Helper::BitXor,
            seq![dst as i64, lhs as i64, rhs as i64],
        ),
        Instruction::ShiftLeft { dst, lhs, rhs } => Translation::Check(
            Helper::ShiftLeft,
            seq![dst as i64, lhs as i64, rhs as i64],
        ),
        Instruction::ShiftRight { dst, lhs, rhs } => Translation::Check(
            Helper::ShiftRight,
            seq![dst as i64, lhs as i64, rhs as i64],
        ),
        Instruction::UnsignedShiftRight { dst, lhs, rhs } => Translation::Check(
            Helper::UnsignedShiftRight,
            seq![dst as i64, lhs as i64, rhs as i64],
        ),
        Instruction::LessThan { dst, lhs, rhs } => Translation::Check(
            Helper::LessThan,
            seq![dst as i64, lhs as i64, rhs as i64],
        ),
        Instruction::LessThanOrEq { dst, lhs, rhs } => Translation::Check(
            Helper::LessThanOrEq,
            seq![dst as i64, lhs as i64, rhs as i64],
        ),
        Instruction::GreaterThan { dst, lhs, rhs } => Translation::Check(
            Helper::GreaterThan,
            seq![dst as i64, lhs as i64, rhs as i64],
        ),
        Instruction::GreaterThanOrEq { dst, lhs, rhs } => Translation::Check(
            Helper::GreaterThanOrEq,
            seq![dst as i64, lhs as i64, rhs as i64],
        ),
        Instruction::Eq { dst, lhs, rhs } => Translation::Check(
            Helper::Eq,
            seq![dst as i64, lhs as i64, rhs as i64],
        ),
        Instruction::NotEq { dst, lhs, rhs } => Translation::Check(
            Helper::NotEq,
            seq![dst as i64, lhs as i64, rhs as i64],
        ),
        Instruction::Inc { dst, src } => Translation::Check(
            Helper::Inc,
            seq![dst as i64, src as i64],
        ),
        Instruction::Dec { dst, src } => Translation::Check(
            Helper::Dec,
            seq![dst as i64, src as i64],
        ),
        Instruction::GetName { dst, binding_index } => Translation::Check(
            Helper::GetName,
            seq![dst as i64, binding_index as i64],
        ),
        Instruction::GetNameGlobal { dst, binding_index, ic_index } => Translation::Check(
            Helper::GetNameGlobal,
            seq![dst as i64, binding_index as i64, ic_index as i64],
        ),
        Instruction::GetPropertyByName { dst, object, ic_index } => Translation::Check(
            Helper::GetPropertyByName,
            seq![dst as i64, object as i64, ic_index as i64],
        ),
        Instruction::GetLengthProperty { dst, object, ic_index } => Translation::Check(
            Helper::GetLengthProperty,
            seq![dst as i64, object as i64, ic_index as i64],
        ),
        Instruction::GetPropertyByValue { dst, key, receiver, object } => Translation::Check(
            Helper::GetPropertyByValue,
            seq![dst as i64, key as i64, receiver as i64, object as i64],
        ),
        Instruction::GetPropertyByValuePush { dst, key, receiver, object } => Translation::Check(
            Helper::GetPropertyByValuePush,
            seq![dst as i64, key as i64, receiver as i64, object as i64],
        ),
        Instruction::SetPropertyByValue { value, key, receiver, object } => Translation::Check(
            Helper::SetPropertyByValue,
            seq![value as i64, key as i64, receiver as i64, object as i64],
        ),
        Instruction::Call { argument_count } => Translation::Check(
            Helper::Call,
            seq![argument_count as i64],
        ),
        Instruction::IncrementLoopIteration => Translation::Check(
            Helper::IncrementLoopIteration,
            Seq::empty(),
        ),
        Instruction::CheckReturn => Translation::Check(Helper::CheckReturn, Seq::empty()),
        Instruction::JumpIfNotLessThan { address, lhs, rhs } => Translation::Branch(
            Helper::NotLessThan,
            seq![lhs as i64, rhs as i64],
            address,
        ),
        Instruction::Jump { address } => Translation::Jump(address),
        Instruction::Return => Translation::Finish,
        _ => match spec_jump_target(instruction) {
            Some(address) => Translation::Branch(
                Helper::Interpret,
                seq![position as i64],
                address,
            ),
            None => Translation::Check(Helper::Interpret, seq![position as i64]),
        },
    }
}

/// What instruction number `k` of a program is translated into.
pub open spec fn translation_of(program: Seq<Instruction>, k: int) -> Translation {
    translation(pc_of(program, k), program[k])
}

/// [`Translation`] as an executable value.
pub enum Lowering {
    Call(Helper, Vec<i64>),
    Check(Helper, Vec<i64>),
    Branch(Helper, Vec<i64>, u32),
    Jump(u32),
    Finish,
}

impl View for Lowering {
    type V = Translation;

    open spec fn view(&self) -> Translation {
        match *self {
            Lowering::Call(helper, numbers) => Translation::Call(helper, numbers@),
            Lowering::Check(helper, numbers) => Translation::Check(helper, numbers@),
            Lowering::Branch(helper, numbers, address) => Translation::Branch(
                helper,
                numbers@,
                address,
            ),
            Lowering::Jump(address) => Translation::Jump(address),
            Lowering::Finish => Translation::Finish,
        }
    }
}

/// The numbers of a translation.
spec fn numbers_of(translation: Translation) -> Seq<i64> {
    match translation {
        Translation::Call(_, numbers) => numbers,
        Translation::Check(_, numbers) => numbers,
        Translation::Branch(_, numbers, _) => numbers,
        _ => Seq::empty(),
    }
}

/// Picks what the instruction at a position is translated into.
pub fn lower(position: u32, instruction: &Instruction) -> (lowering: Lowering)
    ensures
        lowering@ == translation(position as int, *instruction),
{
    reveal(translation);
    let lowering = match *instruction {
        Instruction::StoreZero { dst } => Lowering::Call(Helper::StoreZero, vec![dst as i64]),
        Instruction::StoreOne { dst } => Lowering::Call(Helper::StoreOne, vec![dst as i64]),
        Instruction::StoreInt8 { dst, value } => Lowering::Call(
            Helper::StoreInt8,
            vec![dst as i64, value as i64],
        ),
        Instruction::StoreInt16 { dst, value } => Lowering::Call(
            Helper::StoreInt16,
            vec![dst as i64, value as i64],
        ),
        Instruction::StoreInt32 { dst, value } => Lowering::Call(
            Helper::StoreInt32,
            vec![dst as i64, value as i64],
        ),
        Instruction::Move { dst, src } => Lowering::Call(
            Helper::Move,
            vec![dst as i64, src as i64],
        ),
        Instruction::GetArgument { index, dst } => Lowering::Call(
            Helper::GetArgument,
            vec![index as i64, dst as i64],
        ),
        Instruction::SetAccumulator { src } => Lowering::Call(
            Helper::SetAccumulator,
            vec![src as i64],
        ),
        Instruction::PushFromRegister { src } => Lowering::Call(
            Helper::PushFromRegister,
            vec![src as i64],
        ),
        Instruction::PopIntoRegister { dst } => Lowering::Call(
            Helper::PopIntoRegister,
            vec![dst as i64],
        ),
        Instruction::StrictEq { dst, lhs, rhs } => Lowering::Call(
            Helper::StrictEq,
            vec![dst as i64, lhs as i64, rhs as i64],
        ),
        Instruction::StrictNotEq { dst, lhs, rhs } => Lowering::Call(
            Helper::StrictNotEq,
            vec![dst as i64, lhs as i64, rhs as i64],
        ),
        Instruction::Add { dst, lhs, rhs } => Lowering::Check(
            Helper::Add,
            vec![dst as i64, lhs as i64, rhs as i64],
        ),
        Instruction::Sub { dst, lhs, rhs } => Lowering::Check(
            Helper::Sub,
            vec![dst as i64, lhs as i64, rhs as i64],
        ),
        Instruction::Mul { dst, lhs, rhs } => Lowering::Check(
            Helper::Mul,
            vec![dst as i64, lhs as i64, rhs as i64],
        ),
        Instruction::Div { dst, lhs, rhs } => Lowering::Check(
            Helper::Div,
            vec![dst as i64, lhs as i64, rhs as i64],
        ),
        Instruction::Mod { dst, lhs, rhs } => Lowering::Check(
            Helper::Mod,
            vec![dst as i64, lhs as i64, rhs as i64],
        ),
        Instruction::Pow { dst, lhs, rhs } => Lowering::Check(
            Helper::Pow,
            vec![dst as i64, lhs as i64, rhs as i64],
        ),
        Instruction::BitOr { dst, lhs, rhs } => Lowering::Check(
            Helper::BitOr,
            vec![dst as i64, lhs as i64, rhs as i64],
        ),
        Instruction::BitAnd { dst, lhs, rhs } => Lowering::Check(
            Helper::BitAnd,
            vec![dst as i64, lhs as i64, rhs as i64],
        ),
        Instruction::BitXor { dst, lhs, rhs } => Lowering::Check(
            Helper::BitXor,
            vec![dst as i64, lhs as i64, rhs as i64],
        ),
        Instruction::ShiftLeft { dst, lhs, rhs } => Lowering::Check(
            Helper::ShiftLeft,
            vec![dst as i64, lhs as i64, rhs as i64],
        ),
        Instruction::ShiftRight { dst, lhs, rhs } => Lowering::Check(
            Helper::ShiftRight,
            vec![dst as i64, lhs as i64, rhs as i64],
        ),
        Instruction::UnsignedShiftRight { dst, lhs, rhs } => Lowering::Check(
            Helper::UnsignedShiftRight,
            vec![dst as i64, lhs as i64, rhs as i64],
        ),
        Instruction::LessThan { dst, lhs, rhs } => Lowering::Check(
            Helper::LessThan,
            vec![dst as i64, lhs as i64, rhs as i64],
        ),
        Instruction::LessThanOrEq { dst, lhs, rhs } => Lowering::Check(
            Helper::LessThanOrEq,
            vec![dst as i64, lhs as i64, rhs as i64],
        ),
        Instruction::GreaterThan { dst, lhs, rhs } => Lowering::Check(
            Helper::GreaterThan,
            vec![dst as i64, lhs as i64, rhs as i64],
        ),
        Instruction::GreaterThanOrEq { dst, lhs, rhs } => Lowering::Check(
            Helper::GreaterThanOrEq,
            vec![dst as i64, lhs as i64, rhs as i64],
        ),
        Instruction::Eq { dst, lhs, rhs } => Lowering::Check(
            Helper::Eq,
            vec![dst as i64, lhs as i64, rhs as i64],
        ),
        Instruction::NotEq { dst, lhs, rhs } => Lowering::Check(
            Helper::NotEq,
            vec![dst as i64, lhs as i64, rhs as i64],
        ),
        Instruction::Inc { dst, src } => Lowering::Check(Helper::Inc, vec![dst as i64, src as i64]),
        Instruction::Dec { dst, src } => Lowering::Check(Helper::Dec, vec![dst as i64, src as i64]),
        Instruction::GetName { dst, binding_index } => Lowering::Check(
            Helper::GetName,
            vec![dst as i64, binding_index as i64],
        ),
        Instruction::GetNameGlobal { dst, binding_index, ic_index } => Lowering::Check(
            Helper::GetNameGlobal,
            vec![dst as i64, binding_index as i64, ic_index as i64],
        ),
        Instruction::GetPropertyByName { dst, object, ic_index } => Lowering::Check(
            Helper::GetPropertyByName,
            vec![dst as i64, object as i64, ic_index as i64],
        ),
        Instruction::GetLengthProperty { dst, object, ic_index } => Lowering::Check(
            Helper::GetLengthProperty,
            vec![dst as i64, object as i64, ic_index as i64],
        ),
        Instruction::GetPropertyByValue { dst, key, receiver, object } => Lowering::Check(
            Helper::GetPropertyByValue,
            vec![dst as i64, key as i64, receiver as i64, object as i64],
        ),
        Instruction::GetPropertyByValuePush { dst, key, receiver, object } => Lowering::Check(
            Helper::GetPropertyByValuePush,
            vec![dst as i64, key as i64, receiver as i64, object as i64],
        ),
        Instruction::SetPropertyByValue { value, key, receiver, object } => Lowering::Check(
            Helper::SetPropertyByValue,
            vec![value as i64, key as i64, receiver as i64, object as i64],
        ),
        Instruction::Call { argument_count } => Lowering::Check(
            Helper::Call,
            vec![argument_count as i64],
        ),
        Instruction::IncrementLoopIteration => Lowering::Check(
            Helper::IncrementLoopIteration,
            Vec::new(),
        ),
        Instruction::CheckReturn => Lowering::Check(Helper::CheckReturn, Vec::new()),
        Instruction::JumpIfNotLessThan { address, lhs, rhs } => Lowering::Branch(
            Helper::NotLessThan,
            vec![lhs as i64, rhs as i64],
            address,
        ),
        Instruction::Jump { address } => Lowering::Jump(address),
        Instruction::Return => Lowering::Finish,
        _ => match jump_target(instruction) {
            Some(address) => Lowering::Branch(Helper::Interpret, vec![position as i64], address),
            None => Lowering::Check(Helper::Interpret, vec![position as i64]),
        },
    };
    proof {
        let target = translation(position as int, *instruction);
        assert(numbers_of(lowering@) =~= numbers_of(target));
    }
    lowering
}

/// The status of compiled code that reached the end of the bytecode.
pub const STATUS_CONTINUE: i64 = 0;

/// The status of compiled code that gives control back to the caller of the interpreter. An
/// exception is pending, or else the return value is in place.
pub const STATUS_BREAK: i64 = 1;

/// The status of a helper for an instruction that may jump, if it left an exception pending.
/// It is 1 if the instruction jumps.
pub const STATUS_EXCEPTION: i64 = 2;

/// The block of instruction number `k`. The block of the instruction behind the last one
/// ends the function.
pub open spec fn block_of(k: int) -> u32 {
    (2 * k + 1) as u32
}

/// The block that decides whether instruction number `k` jumps.
pub open spec fn decision_of(k: int) -> u32 {
    (2 * k + 2) as u32
}

/// The block that ends the function with an exception, where `n` is the number of
/// instructions.
pub open spec fn exception_block(n: int) -> u32 {
    (2 * n + 2) as u32
}

/// The block of the instruction at an address.
pub open spec fn block_at_address(program: Seq<Instruction>, address: u32) -> u32 {
    block_of(index_of(program, address))
}

/// Constants for numbers. The first gets the value number `first`.
pub open spec fn constants(first: nat, numbers: Seq<i64>) -> Seq<Inst> {
    Seq::new(
        numbers.len(),
        |i: int|
            Inst::Iconst {
                result: (first + i) as u32,
                bits: 32,
                value: low_bits(numbers[i], 32),
            },
    )
}

/// The virtual machine, which is value number 0, and `count` values from number `first` on.
pub open spec fn arguments(first: nat, count: nat) -> Seq<u32> {
    seq![0u32] + Seq::new(count, |i: int| (first + i) as u32)
}

/// A constant of 64 bits.
pub open spec fn wide_constant(result: nat, value: i64) -> Inst {
    Inst::Iconst { result: result as u32, bits: 64, value: low_bits(value, 64) }
}

/// The call of a helper whose arguments are the values from number `first` on. The status, if
/// it has one, gets the number after those.
pub open spec fn helper_call(refs: HelperFuncs, helper: Helper, first: nat) -> Inst {
    Inst::Call {
        results: if helper.has_status() {
            seq![(first + helper.operands()) as u32]
        } else {
            Seq::empty()
        },
        callee: refs.get(helper),
        args: arguments(first, helper.operands()),
    }
}

/// The types of the values that an instruction is translated into.
pub open spec fn new_values(translation: Translation) -> Seq<u16> {
    match translation {
        Translation::Call(_, numbers) => words(numbers.len()),
        Translation::Check(_, numbers) => words(numbers.len()).push(64),
        Translation::Branch(_, numbers, _) => words(numbers.len()) + seq![64u16, 64u16, 8u16],
        Translation::Jump(_) => Seq::empty(),
        Translation::Finish => seq![64u16],
    }
}

/// 32-bit types.
pub open spec fn words(count: nat) -> Seq<u16> {
    Seq::new(count, |i: int| 32u16)
}

/// How many instructions an instruction is translated into.
pub open spec fn new_size(translation: Translation) -> nat {
    match translation {
        Translation::Call(_, numbers) => numbers.len() + 2,
        Translation::Check(_, numbers) => numbers.len() + 2,
        Translation::Branch(_, numbers, _) => numbers.len() + 5,
        Translation::Jump(_) => 1,
        Translation::Finish => 2,
    }
}

/// The types of the values before instruction number `k`. The first is the pointer to the
/// virtual machine.
pub open spec fn values_before(ptr: u16, program: Seq<Instruction>, k: int) -> Seq<u16>
    decreases k,
{
    if k <= 0 {
        seq![ptr]
    } else {
        values_before(ptr, program, k - 1) + new_values(translation_of(program, k - 1))
    }
}

/// How many values there are before instruction number `k`.
pub open spec fn first_value(program: Seq<Instruction>, k: int) -> nat {
    values_before(0, program, k).len()
}

/// How many instructions there are before those for instruction number `k`. One leads into
/// the first block.
pub open spec fn size_before(program: Seq<Instruction>, k: int) -> nat
    decreases k,
{
    if k <= 0 {
        1
    } else {
        size_before(program, k - 1) + new_size(translation_of(program, k - 1))
    }
}

/// How many instructions the translation of a program has.
pub open spec fn translated_size(program: Seq<Instruction>) -> nat {
    size_before(program, program.len() as int) + 4
}

/// The instructions that call a helper which may leave an exception pending or ask to jump,
/// and tell the exception apart. Control goes to one of two blocks.
pub open spec fn branch_insts(
    refs: HelperFuncs,
    helper: Helper,
    numbers: Seq<i64>,
    first: nat,
    exception: u32,
    decision: u32,
) -> Seq<Inst> {
    let status = first + numbers.len();
    constants(first, numbers) + seq![
        helper_call(refs, helper, first),
        wide_constant(status + 1, STATUS_EXCEPTION),
        Inst::Equal {
            result: (status + 2) as u32,
            left: status as u32,
            right: (status + 1) as u32,
        },
        Inst::Branch { condition: (status + 2) as u32, nonzero: exception, zero: decision },
    ]
}

/// The instructions in the block of instruction number `k`.
pub open spec fn main_insts(program: Seq<Instruction>, refs: HelperFuncs, k: int) -> Seq<Inst> {
    let first = first_value(program, k);
    let exception = exception_block(program.len() as int);
    let next = block_of(k + 1);
    match translation_of(program, k) {
        Translation::Call(helper, numbers) => constants(first, numbers) + seq![
            helper_call(refs, helper, first),
            Inst::Jump { target: next },
        ],
        Translation::Check(helper, numbers) => constants(first, numbers) + seq![
            helper_call(refs, helper, first),
            Inst::Branch {
                condition: (first + numbers.len()) as u32,
                nonzero: exception,
                zero: next,
            },
        ],
        Translation::Branch(helper, numbers, _) => branch_insts(
            refs,
            helper,
            numbers,
            first,
            exception,
            decision_of(k),
        ),
        Translation::Jump(address) => seq![
            Inst::Jump { target: block_at_address(program, address) },
        ],
        Translation::Finish => seq![
            helper_call(refs, Helper::CheckReturnAndReturn, first),
            Inst::Return { args: seq![first as u32] },
        ],
    }
}

/// The instructions in the block that decides whether instruction number `k` jumps.
pub open spec fn decision_insts(program: Seq<Instruction>, k: int) -> Seq<Inst> {
    match translation_of(program, k) {
        Translation::Branch(_, numbers, address) => seq![
            Inst::Branch {
                condition: (first_value(program, k) + numbers.len()) as u32,
                nonzero: block_at_address(program, address),
                zero: block_of(k + 1),
            },
        ],
        _ => Seq::empty(),
    }
}

/// The instructions that return a fixed status.
pub open spec fn status_insts(first: nat, status: i64) -> Seq<Inst> {
    seq![wide_constant(first, status), Inst::Return { args: seq![first as u32] }]
}

/// The instructions in block number `b`.
pub open spec fn insts_of(program: Seq<Instruction>, refs: HelperFuncs, b: int) -> Seq<Inst> {
    let n = program.len() as int;
    if b == 0 {
        seq![Inst::Jump { target: block_of(0) }]
    } else if b == 2 * n + 1 {
        status_insts(first_value(program, n), STATUS_CONTINUE)
    } else if b == 2 * n + 2 {
        status_insts(first_value(program, n) + 1, STATUS_BREAK)
    } else if b % 2 == 1 {
        main_insts(program, refs, (b - 1) / 2)
    } else {
        decision_insts(program, (b - 2) / 2)
    }
}

/// Block number `b`. The first one has the pointer to the virtual machine as its parameter.
pub open spec fn block_body(
    program: Seq<Instruction>,
    refs: HelperFuncs,
    b: int,
    sealed: bool,
) -> BlockBody {
    BlockBody {
        params: if b == 0 {
            seq![0u32]
        } else {
            Seq::empty()
        },
        insts: insts_of(program, refs, b),
        sealed,
    }
}

/// The types of a compiled function: it takes a pointer to the virtual machine and returns
/// a 64-bit status.
pub open spec fn compiled_signature(ptr: u16) -> SignatureTypes {
    SignatureTypes { params: seq![ptr], returns: seq![64u16] }
}

/// A compiled function before any instruction. It is at its first block, which has the pointer
/// to the virtual machine as its parameter.
pub open spec fn entry(ptr: u16) -> Body {
    Body {
        signature: compiled_signature(ptr),
        imports: Seq::empty(),
        values: seq![ptr],
        blocks: seq![BlockBody { params: seq![0u32], ..BlockBody::fresh() }],
        size: 0,
        start: None,
        current: Some(0),
    }
}

/// The helpers as imports of a function.
pub open spec fn helper_imports(ids: HelperFuncs, ptr: u16) -> Seq<Import> {
    Seq::new(
        HELPER_COUNT as nat,
        |i: int|
            Import { function: ids.get(helper_at(i)), signature: helper_at(i).signature(ptr) },
    )
}

/// The compiled function for a program, in a module whose helpers have the numbers `ids`.
pub open spec fn compiled(ptr: u16, ids: HelperFuncs, program: Seq<Instruction>) -> Body {
    Body {
        signature: compiled_signature(ptr),
        imports: helper_imports(ids, ptr),
        values: values_before(ptr, program, program.len() as int) + seq![64u16, 64u16],
        blocks: Seq::new(
            (2 * program.len() + 3) as nat,
            |b: int| block_body(program, first_refs(), b, true),
        ),
        size: translated_size(program),
        start: Some(0),
        current: None,
    }
}

/// A module with a function declared.
pub open spec fn with_declaration(module: ModuleState, declaration: Declaration) -> ModuleState {
    ModuleState {
        functions: module.functions.push(declaration),
        names: module.names.insert(declaration.name),
        ..module
    }
}

/// A module with the first `count` helpers declared.
pub open spec fn with_helpers(module: ModuleState, ptr: u16, count: nat) -> ModuleState
    decreases count,
{
    if count == 0 {
        module
    } else {
        with_declaration(
            with_helpers(module, ptr, (count - 1) as nat),
            helper_at(count - 1).declaration(ptr),
        )
    }
}

/// The helpers that were declared are in a module in their order, and nothing else changed.
pub proof fn helpers_declared(module: ModuleState, ptr: u16, count: nat)
    requires
        module.functions.len() == 0,
        count <= HELPER_COUNT,
    ensures
        ({
            let after = with_helpers(module, ptr, count);
            &&& after == (ModuleState { functions: after.functions, names: after.names, ..module })
            &&& after.functions.len() == count
            &&& forall|i: int|
                0 <= i < count ==> #[trigger] after.functions[i] == helper_at(i).declaration(ptr)
            &&& forall|name: Seq<char>| #[trigger]
                after.names.contains(name) ==> module.names.contains(name) || exists|i: int|
                    0 <= i < count && (#[trigger] helper_at(i)).symbol() == name
        }),
    decreases count,
{
    if count > 0 {
        let less = (count - 1) as nat;
        helpers_declared(module, ptr, less);
        let before = with_helpers(module, ptr, less);
        let after = with_helpers(module, ptr, count);
        assert forall|name: Seq<char>| #[trigger] after.names.contains(name) implies
            module.names.contains(name) || exists|i: int|
            0 <= i < count && (#[trigger] helper_at(i)).symbol() == name by {
            if before.names.contains(name) && !module.names.contains(name) {
                let i = choose|i: int|
                    0 <= i < less && (#[trigger] helper_at(i)).symbol() == name;
                assert(0 <= i < count && helper_at(i).symbol() == name);
            } else if !module.names.contains(name) {
                assert(helper_at(count - 1).symbol() == name);
            }
        }
    }
}

/// Every helper is at its place in the order.
pub proof fn helpers_are_in_order(helper: Helper)
    ensures
        0 <= helper.index() < HELPER_COUNT,
        helper_at(helper.index()) == helper,
{
    reveal(helper_at);
    reveal(Helper::index);
}

/// Every place in the order has its helper.
pub proof fn places_are_in_order(index: int)
    requires
        0 <= index < HELPER_COUNT,
    ensures
        helper_at(index).index() == index,
{
    reveal(helper_at);
    reveal(Helper::index);
}

/// A helper that is called for an instruction gets as many numbers as it takes, and has a
/// status where one is asked for.
pub proof fn operands_fit(position: int, instruction: Instruction)
    ensures
        match translation(position, instruction) {
            Translation::Call(helper, numbers) => numbers.len() == helper.operands()
                && !helper.has_status() && numbers.len() <= 4,
            Translation::Check(helper, numbers) => numbers.len() == helper.operands()
                && helper.has_status() && numbers.len() <= 4,
            Translation::Branch(helper, numbers, address) => numbers.len() == helper.operands()
                && helper.has_status() && numbers.len() <= 2 && spec_jump_target(instruction)
                == Some(address),
            Translation::Jump(address) => spec_jump_target(instruction) == Some(address),
            Translation::Finish => true,
        },
        translation(position, instruction) is Finish <==> instruction is Return,
        translation(position, instruction) is Jump <==> instruction is Jump,
        translation(position, instruction) is Check ==> spec_jump_target(instruction) is None,
{
    reveal(translation);
    reveal(Helper::operands);
    reveal(Helper::has_status);
}

/// The helper that returns takes no numbers, and has a status.
pub proof fn return_helper_fits()
    ensures
        Helper::CheckReturnAndReturn.operands() == 0,
        Helper::CheckReturnAndReturn.has_status(),
{
    reveal(Helper::operands);
    reveal(Helper::has_status);
}

/// Which helper a symbol is the name of, told by its length and a few letters.
spec fn symbol_index(name: Seq<char>) -> int {
    if name.len() == 6 {
        if name[4] == 'l' {
            if name[5] == 't' {
                24
            } else {
                25
            }
        } else if name[4] == 'g' {
            if name[5] == 't' {
                26
            } else {
                27
            }
        } else if name[4] == 'e' {
            28
        } else {
            29
        }
    } else if name.len() == 7 {
        if name[5] == 'd' {
            12
        } else if name[5] == 'u' {
            if name[4] == 's' {
                13
            } else {
                14
            }
        } else if name[5] == 'i' {
            15
        } else if name[5] == 'o' {
            if name[4] == 'm' {
                16
            } else {
                17
            }
        } else if name[5] == 'h' {
            if name[6] == 'l' {
                21
            } else {
                22
            }
        } else if name[5] == 'n' {
            30
        } else {
            31
        }
    } else if name.len() == 8 {
        if name[4] == 'm' {
            5
        } else {
            23
        }
    } else if name.len() == 10 {
        18
    } else if name.len() == 11 {
        if name[8] == 'a' {
            19
        } else {
            20
        }
    } else if name.len() == 12 {
        33
    } else if name.len() == 13 {
        if name[6] == 'o' {
            1
        } else if name[6] == 'r' {
            if name[11] == 'e' {
                10
            } else {
                11
            }
        } else {
            42
        }
    } else if name.len() == 14 {
        if name[10] == 'z' {
            0
        } else if name[10] == 'i' {
            2
        } else {
            40
        }
    } else if name.len() == 15 {
        if name[13] == '1' {
            3
        } else {
            4
        }
    } else if name.len() == 16 {
        if name[4] == 'g' {
            6
        } else {
            43
        }
    } else if name.len() == 17 {
        32
    } else if name.len() == 19 {
        if name[4] == 's' {
            7
        } else {
            34
        }
    } else if name.len() == 21 {
        9
    } else if name.len() == 22 {
        8
    } else if name.len() == 23 {
        36
    } else if name.len() == 24 {
        35
    } else if name.len() == 25 {
        if name[4] == 'g' {
            37
        } else {
            39
        }
    } else if name.len() == 27 {
        44
    } else if name.len() == 28 {
        41
    } else {
        38
    }
}

/// The symbol of a helper tells which helper it is, and is not the name of a function.
proof fn symbol_of_helper(helper: Helper)
    ensures
        symbol_index(helper.symbol()) == helper.index(),
        helper.symbol().len() > 4,
        helper.symbol()[4] != 'f',
{
    reveal(Helper::symbol);
    reveal(Helper::index);
    match helper {
        Helper::StoreZero => {
            reveal_strlit("jit_store_zero");
            assert(helper.symbol().len() == 14);
        },
        Helper::StoreOne => {
            reveal_strlit("jit_store_one");
            assert(helper.symbol().len() == 13);
        },
        Helper::StoreInt8 => {
            reveal_strlit("jit_store_int8");
            assert(helper.symbol().len() == 14);
        },
        Helper::StoreInt16 => {
            reveal_strlit("jit_store_int16");
            assert(helper.symbol().len() == 15);
        },
        Helper::StoreInt32 => {
            reveal_strlit("jit_store_int32");
            assert(helper.symbol().len() == 15);
        },
        Helper::Move => {
            reveal_strlit("jit_move");
            assert(helper.symbol().len() == 8);
        },
        Helper::GetArgument => {
            reveal_strlit("jit_get_argument");
            assert(helper.symbol().len() == 16);
        },
        Helper::SetAccumulator => {
            reveal_strlit("jit_set_accumulator");
            assert(helper.symbol().len() == 19);
        },
        Helper::PushFromRegister => {
            reveal_strlit("jit_push_from_register");
            assert(helper.symbol().len() == 22);
        },
        Helper::PopIntoRegister => {
            reveal_strlit("jit_pop_into_register");
            assert(helper.symbol().len() == 21);
        },
        Helper::StrictEq => {
            reveal_strlit("jit_strict_eq");
            assert(helper.symbol().len() == 13);
        },
        Helper::StrictNotEq => {
            reveal_strlit("jit_strict_ne");
            assert(helper.symbol().len() == 13);
        },
        Helper::Add => {
            reveal_strlit("jit_add");
            assert(helper.symbol().len() == 7);
        },
        Helper::Sub => {
            reveal_strlit("jit_sub");
            assert(helper.symbol().len() == 7);
        },
        Helper::Mul => {
            reveal_strlit("jit_mul");
            assert(helper.symbol().len() == 7);
        },
        Helper::Div => {
            reveal_strlit("jit_div");
            assert(helper.symbol().len() == 7);
        },
        Helper::Mod => {
            reveal_strlit("jit_mod");
            assert(helper.symbol().len() == 7);
        },
        Helper::Pow => {
            reveal_strlit("jit_pow");
            assert(helper.symbol().len() == 7);
        },
        Helper::BitOr => {
            reveal_strlit("jit_bit_or");
            assert(helper.symbol().len() == 10);
        },
        Helper::BitAnd => {
            reveal_strlit("jit_bit_and");
            assert(helper.symbol().len() == 11);
        },
        Helper::BitXor => {
            reveal_strlit("jit_bit_xor");
            assert(helper.symbol().len() == 11);
        },
        Helper::ShiftLeft => {
            reveal_strlit("jit_shl");
            assert(helper.symbol().len() == 7);
        },
        Helper::ShiftRight => {
            reveal_strlit("jit_shr");
            assert(helper.symbol().len() == 7);
        },
        Helper::UnsignedShiftRight => {
            reveal_strlit("jit_ushr");
            assert(helper.symbol().len() == 8);
        },
        Helper::LessThan => {
            reveal_strlit("jit_lt");
            assert(helper.symbol().len() == 6);
        },
        Helper::LessThanOrEq => {
            reveal_strlit("jit_le");
            assert(helper.symbol().len() == 6);
        },
        Helper::GreaterThan => {
            reveal_strlit("jit_gt");
            assert(helper.symbol().len() == 6);
        },
        Helper::GreaterThanOrEq => {
            reveal_strlit("jit_ge");
            assert(helper.symbol().len() == 6);
        },
        Helper::Eq => {
            reveal_strlit("jit_eq");
            assert(helper.symbol().len() == 6);
        },
        Helper::NotEq => {
            reveal_strlit("jit_ne");
            assert(helper.symbol().len() == 6);
        },
        Helper::Inc => {
            reveal_strlit("jit_inc");
            assert(helper.symbol().len() == 7);
        },
        Helper::Dec => {
            reveal_strlit("jit_dec");
            assert(helper.symbol().len() == 7);
        },
        Helper::NotLessThan => {
            reveal_strlit("jit_not_less_than");
            assert(helper.symbol().len() == 17);
        },
        Helper::GetName => {
            reveal_strlit("jit_get_name");
            assert(helper.symbol().len() == 12);
        },
        Helper::GetNameGlobal => {
            reveal_strlit("jit_get_name_global");
            assert(helper.symbol().len() == 19);
        },
        Helper::GetPropertyByName => {
            reveal_strlit("jit_get_property_by_name");
            assert(helper.symbol().len() == 24);
        },
        Helper::GetLengthProperty => {
            reveal_strlit("jit_get_length_property");
            assert(helper.symbol().len() == 23);
        },
        Helper::GetPropertyByValue => {
            reveal_strlit("jit_get_property_by_value");
            assert(helper.symbol().len() == 25);
        },
        Helper::GetPropertyByValuePush => {
            reveal_strlit("jit_get_property_by_value_push");
            assert(helper.symbol().len() == 30);
        },
        Helper::SetPropertyByValue => {
            reveal_strlit("jit_set_property_by_value");
            assert(helper.symbol().len() == 25);
        },
        Helper::Call => {
            reveal_strlit("jit_call_inner");
            assert(helper.symbol().len() == 14);
        },
        Helper::IncrementLoopIteration => {
            reveal_strlit("jit_increment_loop_iteration");
            assert(helper.symbol().len() == 28);
        },
        Helper::Interpret => {
            reveal_strlit("jit_interpret");
            assert(helper.symbol().len() == 13);
        },
        Helper::CheckReturn => {
            reveal_strlit("jit_check_return");
            assert(helper.symbol().len() == 16);
        },
        Helper::CheckReturnAndReturn => {
            reveal_strlit("jit_check_return_and_return");
            assert(helper.symbol().len() == 27);
        },
    }
}

/// Different helpers have different symbols.
pub proof fn helper_symbols_are_unique(a: Helper, b: Helper)
    requires
        a.symbol() == b.symbol(),
    ensures
        a == b,
{
    symbol_of_helper(a);
    symbol_of_helper(b);
    helpers_are_in_order(a);
    helpers_are_in_order(b);
}

/// No compiled function has the name of a helper.
pub proof fn helper_symbols_are_no_function_names(helper: Helper, n: nat)
    ensures
        helper.symbol() != function_name(n),
{
    symbol_of_helper(helper);
    reveal_strlit("jit_fn_");
    assert(function_name(n)[4] == 'f');
}

/// The number of values does not depend on the width of a pointer.
pub proof fn value_count(ptr: u16, program: Seq<Instruction>, k: int)
    ensures
        values_before(ptr, program, k).len() == first_value(program, k),
        values_before(ptr, program, k)[0] == ptr,
        first_value(program, k) >= 1,
    decreases k,
{
    if k > 0 {
        value_count(ptr, program, k - 1);
        value_count(0, program, k - 1);
    }
}

/// What comes before an instruction is no more than what comes before a later one.
pub proof fn translation_grows(program: Seq<Instruction>, j: int, k: int)
    requires
        0 <= j <= k,
    ensures
        size_before(program, j) + (k - j) <= size_before(program, k),
        values_before(0, program, j).len() <= values_before(0, program, k).len(),
        values_before(0, program, k).len() <= size_before(program, k),
    decreases k,
{
    if j < k {
        translation_grows(program, j, k - 1);
    } else if k > 0 {
        translation_grows(program, k - 1, k - 1);
    }
}

/// The translation of a program has at most six times as many instructions as the bytecode
/// has bytes, and five more.
pub proof fn translation_is_short(program: Seq<Instruction>)
    ensures
        translated_size(program) <= 6 * program_encoding(program).len() + 5,
    decreases program.len(),
{
    let n = program.len() as int;
    if n > 0 {
        let shorter = program.drop_last();
        translation_is_short(shorter);
        instruction_is_short(pc_of(program, n - 1), program.last());
        size_of_front(program, n - 1);
    }
}

/// The translation of an instruction has at most six times as many instructions as the
/// instruction has bytes.
proof fn instruction_is_short(position: int, instruction: Instruction)
    ensures
        new_size(translation(position, instruction)) <= 6 * instruction.encoding().len(),
{
    encoding_starts_with_opcode(instruction);
    operands_fit(position, instruction);
    if instruction is JumpIfNotLessThan {
        assert(instruction.words().len() == 3);
    } else {
        few_numbers(position, instruction);
    }
}

/// What may jump is left to the interpreter with one number, but for `JumpIfNotLessThan`.
proof fn few_numbers(position: int, instruction: Instruction)
    requires
        !(instruction is JumpIfNotLessThan),
    ensures
        translation(position, instruction) matches Translation::Branch(_, numbers, _)
            ==> numbers.len() == 1,
{
    reveal(translation);
}

/// How many instructions come before depends on what comes before only.
proof fn size_of_front(program: Seq<Instruction>, k: int)
    requires
        0 <= k < program.len(),
    ensures
        size_before(program.drop_last(), k) == size_before(program, k),
    decreases k,
{
    if k > 0 {
        size_of_front(program, k - 1);
        assert(program.drop_last().take(k - 1) =~= program.take(k - 1));
    }
}

/// Each helper is known under its own name.
pub proof fn helpers_have_their_names()
    ensures
        Helper::StoreZero.symbol() == "jit_store_zero"@,
        Helper::StoreOne.symbol() == "jit_store_one"@,
        Helper::StoreInt8.symbol() == "jit_store_int8"@,
        Helper::StoreInt16.symbol() == "jit_store_int16"@,
        Helper::StoreInt32.symbol() == "jit_store_int32"@,
        Helper::Move.symbol() == "jit_move"@,
        Helper::GetArgument.symbol() == "jit_get_argument"@,
        Helper::SetAccumulator.symbol() == "jit_set_accumulator"@,
        Helper::PushFromRegister.symbol() == "jit_push_from_register"@,
        Helper::PopIntoRegister.symbol() == "jit_pop_into_register"@,
        Helper::StrictEq.symbol() == "jit_strict_eq"@,
        Helper::StrictNotEq.symbol() == "jit_strict_ne"@,
        Helper::Add.symbol() == "jit_add"@,
        Helper::Sub.symbol() == "jit_sub"@,
        Helper::Mul.symbol() == "jit_mul"@,
        Helper::Div.symbol() == "jit_div"@,
        Helper::Mod.symbol() == "jit_mod"@,
        Helper::Pow.symbol() == "jit_pow"@,
        Helper::BitOr.symbol() == "jit_bit_or"@,
        Helper::BitAnd.symbol() == "jit_bit_and"@,
        Helper::BitXor.symbol() == "jit_bit_xor"@,
        Helper::ShiftLeft.symbol() == "jit_shl"@,
        Helper::ShiftRight.symbol() == "jit_shr"@,
        Helper::UnsignedShiftRight.symbol() == "jit_ushr"@,
        Helper::LessThan.symbol() == "jit_lt"@,
        Helper::LessThanOrEq.symbol() == "jit_le"@,
        Helper::GreaterThan.symbol() == "jit_gt"@,
        Helper::GreaterThanOrEq.symbol() == "jit_ge"@,
        Helper::Eq.symbol() == "jit_eq"@,
        Helper::NotEq.symbol() == "jit_ne"@,
        Helper::Inc.symbol() == "jit_inc"@,
        Helper::Dec.symbol() == "jit_dec"@,
        Helper::NotLessThan.symbol() == "jit_not_less_than"@,
        Helper::GetName.symbol() == "jit_get_name"@,
        Helper::GetNameGlobal.symbol() == "jit_get_name_global"@,
        Helper::GetPropertyByName.symbol() == "jit_get_property_by_name"@,
        Helper::GetLengthProperty.symbol() == "jit_get_length_property"@,
        Helper::GetPropertyByValue.symbol() == "jit_get_property_by_value"@,
        Helper::GetPropertyByValuePush.symbol() == "jit_get_property_by_value_push"@,
        Helper::SetPropertyByValue.symbol() == "jit_set_property_by_value"@,
        Helper::Call.symbol() == "jit_call_inner"@,
        Helper::IncrementLoopIteration.symbol() == "jit_increment_loop_iteration"@,
        Helper::Interpret.symbol() == "jit_interpret"@,
        Helper::CheckReturn.symbol() == "jit_check_return"@,
        Helper::CheckReturnAndReturn.symbol() == "jit_check_return_and_return"@,
{
    reveal(Helper::symbol);
}

/// Every operation that has a helper of its own is translated into a call of it, and every
/// other one, but for jumps and returns, into a call of the interpreter.
pub proof fn operations_call_their_helpers(position: int, instruction: Instruction)
    ensures
        match translation(position, instruction) {
            Translation::Call(helper, _) | Translation::Check(helper, _) => {
                &&& instruction is StoreZero <==> helper is StoreZero
                &&& instruction is StoreOne <==> helper is StoreOne
                &&& instruction is StoreInt8 <==> helper is StoreInt8
                &&& instruction is StoreInt16 <==> helper is StoreInt16
                &&& instruction is StoreInt32 <==> helper is StoreInt32
                &&& instruction is Move <==> helper is Move
                &&& instruction is GetArgument <==> helper is GetArgument
                &&& instruction is SetAccumulator <==> helper is SetAccumulator
                &&& instruction is PushFromRegister <==> helper is PushFromRegister
                &&& instruction is PopIntoRegister <==> helper is PopIntoRegister
                &&& instruction is StrictEq <==> helper is StrictEq
                &&& instruction is StrictNotEq <==> helper is StrictNotEq
                &&& instruction is Add <==> helper is Add
                &&& instruction is Sub <==> helper is Sub
                &&& instruction is Mul <==> helper is Mul
                &&& instruction is Div <==> helper is Div
                &&& instruction is Mod <==> helper is Mod
                &&& instruction is Pow <==> helper is Pow
                &&& instruction is BitOr <==> helper is BitOr
                &&& instruction is BitAnd <==> helper is BitAnd
                &&& instruction is BitXor <==> helper is BitXor
                &&& instruction is ShiftLeft <==> helper is ShiftLeft
                &&& instruction is ShiftRight <==> helper is ShiftRight
                &&& instruction is UnsignedShiftRight <==> helper is UnsignedShiftRight
                &&& instruction is LessThan <==> helper is LessThan
                &&& instruction is LessThanOrEq <==> helper is LessThanOrEq
                &&& instruction is GreaterThan <==> helper is GreaterThan
                &&& instruction is GreaterThanOrEq <==> helper is GreaterThanOrEq
                &&& instruction is Eq <==> helper is Eq
                &&& instruction is NotEq <==> helper is NotEq
                &&& instruction is Inc <==> helper is Inc
                &&& instruction is Dec <==> helper is Dec
                &&& instruction is GetName <==> helper is GetName
                &&& instruction is GetNameGlobal <==> helper is GetNameGlobal
                &&& instruction is GetPropertyByName <==> helper is GetPropertyByName
                &&& instruction is GetLengthProperty <==> helper is GetLengthProperty
                &&& instruction is GetPropertyByValue <==> helper is GetPropertyByValue
                &&& instruction is GetPropertyByValuePush <==> helper is GetPropertyByValuePush
                &&& instruction is SetPropertyByValue <==> helper is SetPropertyByValue
                &&& instruction is Call <==> helper is Call
                &&& instruction is IncrementLoopIteration <==> helper is IncrementLoopIteration
                &&& instruction is CheckReturn <==> helper is CheckReturn
                &&& !(helper is NotLessThan) && !(helper is CheckReturnAndReturn)
            },
            Translation::Branch(helper, _, _) => {
                &&& instruction is JumpIfNotLessThan <==> helper is NotLessThan
                &&& instruction is JumpIfNotLessThan <==> !(helper is Interpret)
            },
            Translation::Jump(_) => instruction is Jump,
            Translation::Finish => instruction is Return,
        },
{
    reveal(translation);
}

/// A helper of an operation gets the words of the instruction in the order in which they are
/// encoded, and the constant that it has, behind them. The interpreter gets the position of the
/// instruction. Where there is an address, it is no operand, but where control goes.
pub proof fn helpers_get_the_operands(position: u32, instruction: Instruction)
    ensures
        ({
            let words = instruction.words();
            match translation(position as int, instruction) {
                Translation::Call(helper, numbers) | Translation::Check(helper, numbers) => {
                    if helper is Interpret {
                        numbers.len() == 1 && numbers[0] == position
                    } else {
                        &&& numbers.len() >= words.len()
                        &&& forall|i: int|
                            0 <= i < words.len() ==> numbers[i] == #[trigger] instruction.words()[i]
                        &&& match instruction {
                            Instruction::StoreInt8 { value, .. } => numbers.len() == 2
                                && numbers[1] == value,
                            Instruction::StoreInt16 { value, .. } => numbers.len() == 2
                                && numbers[1] == value,
                            Instruction::StoreInt32 { value, .. } => numbers.len() == 2
                                && numbers[1] == value,
                            _ => numbers.len() == words.len(),
                        }
                    }
                },
                Translation::Branch(helper, numbers, address) => {
                    &&& words.len() >= 1
                    &&& address == words[0]
                    &&& if helper is Interpret {
                        numbers.len() == 1 && numbers[0] == position
                    } else {
                        &&& numbers.len() == 2 && words.len() == 3
                        &&& numbers[0] == words[1]
                        &&& numbers[1] == words[2]
                    }
                },
                Translation::Jump(address) => words.len() == 1 && address == words[0],
                Translation::Finish => words.len() == 0,
            }
        }),
{
    reveal(translation);
}

/// An operation with an address is translated into a jump or a branch to it, never into a call
/// whose status is taken for that of an exception alone. Such operations have bytes from 50 to
/// 64 other than 52.
pub proof fn addresses_are_branched_to(position: int, instruction: Instruction)
    requires
        instruction.wf(),
    ensures
        ({
            let bytes = instruction.encoding();
            let has_address = 50 <= bytes[0] <= 64 && bytes[0] != 52;
            match translation(position, instruction) {
                Translation::Branch(_, _, address) => has_address && bytes[0] != 54 && address
                    == le_value(bytes.subrange(1, 5)),
                Translation::Jump(address) => bytes[0] == 54 && address == le_value(
                    bytes.subrange(1, 5),
                ),
                _ => !has_address,
            }
        }),
{
    jump_target_is_read_off_encoding(instruction);
    encoding_starts_with_opcode(instruction);
    reveal(translation);
}

/// Helpers that cannot fail have no status: those on constants, registers and the stack, and the
/// strict comparisons.
pub proof fn helpers_that_cannot_fail(helper: Helper)
    ensures
        !helper.has_status() <==> {
            ||| helper is StoreZero
            ||| helper is StoreOne
            ||| helper is StoreInt8
            ||| helper is StoreInt16
            ||| helper is StoreInt32
            ||| helper is Move
            ||| helper is GetArgument
            ||| helper is SetAccumulator
            ||| helper is PushFromRegister
            ||| helper is PopIntoRegister
            ||| helper is StrictEq
            ||| helper is StrictNotEq
        },
{
    reveal(Helper::has_status);
}

/// The helpers are declared in the order in which they are listed.
pub proof fn helpers_are_numbered()
    ensures
        Helper::StoreZero.index() == 0,
        Helper::StoreOne.index() == 1,
        Helper::StoreInt8.index() == 2,
        Helper::StoreInt16.index() == 3,
        Helper::StoreInt32.index() == 4,
        Helper::Move.index() == 5,
        Helper::GetArgument.index() == 6,
        Helper::SetAccumulator.index() == 7,
        Helper::PushFromRegister.index() == 8,
        Helper::PopIntoRegister.index() == 9,
        Helper::StrictEq.index() == 10,
        Helper::StrictNotEq.index() == 11,
        Helper::Add.index() == 12,
        Helper::Sub.index() == 13,
        Helper::Mul.index() == 14,
        Helper::Div.index() == 15,
        Helper::Mod.index() == 16,
        Helper::Pow.index() == 17,
        Helper::BitOr.index() == 18,
        Helper::BitAnd.index() == 19,
        Helper::BitXor.index() == 20,
        Helper::ShiftLeft.index() == 21,
        Helper::ShiftRight.index() == 22,
        Helper::UnsignedShiftRight.index() == 23,
        Helper::LessThan.index() == 24,
        Helper::LessThanOrEq.index() == 25,
        Helper::GreaterThan.index() == 26,
        Helper::GreaterThanOrEq.index() == 27,
        Helper::Eq.index() == 28,
        Helper::NotEq.index() == 29,
        Helper::Inc.index() == 30,
        Helper::Dec.index() == 31,
        Helper::NotLessThan.index() == 32,
        Helper::GetName.index() == 33,
        Helper::GetNameGlobal.index() == 34,
        Helper::GetPropertyByName.index() == 35,
        Helper::GetLengthProperty.index() == 36,
        Helper::GetPropertyByValue.index() == 37,
        Helper::GetPropertyByValuePush.index() == 38,
        Helper::SetPropertyByValue.index() == 39,
        Helper::Call.index() == 40,
        Helper::IncrementLoopIteration.index() == 41,
        Helper::Interpret.index() == 42,
        Helper::CheckReturn.index() == 43,
        Helper::CheckReturnAndReturn.index() == 44,
{
    reveal(Helper::index);
}

/// A helper takes a pointer to the virtual machine and a 32-bit number for each operand, and
/// returns 64 bits if it has a status. A compiled function takes the pointer and returns a
/// status.
pub proof fn signatures_are_of_words(helper: Helper, ptr: u16, i: int)
    ensures
        helper.signature(ptr).params.len() == 1 + helper.operands(),
        helper.signature(ptr).params[0] == ptr,
        0 < i < helper.signature(ptr).params.len() ==> helper.signature(ptr).params[i] == 32,
        helper.signature(ptr).returns.len() == (if helper.has_status() {
            1int
        } else {
            0int
        }),
        helper.has_status() ==> helper.signature(ptr).returns[0] == 64,
        helper.declaration(ptr).name == helper.symbol(),
        helper.declaration(ptr).linkage is Import,
        helper.declaration(ptr).signature == helper.signature(ptr),
        compiled_signature(ptr).params == seq![ptr],
        compiled_signature(ptr).returns == seq![64u16],
{
}

/// A lowering as a mathematical value has all that the lowering has.
pub proof fn lowerings_keep_their_contents(helper: Helper, numbers: Vec<i64>, address: u32)
    ensures
        Lowering::Call(helper, numbers)@ == Translation::Call(helper, numbers@),
        Lowering::Check(helper, numbers)@ == Translation::Check(helper, numbers@),
        Lowering::Branch(helper, numbers, address)@ == Translation::Branch(
            helper,
            numbers@,
            address,
        ),
        Lowering::Jump(address)@ == Translation::Jump(address),
        Lowering::Finish@ == Translation::Finish,
{
}

} // verus!
