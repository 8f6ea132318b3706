//! IR optimization passes.
//!
//! These passes operate on the structured IR before lowering:
//!
//! 1. **Type propagation** annotates each instruction with its known output type,
//!    which lets the lowering skip tag checks where types are known.

use std::collections::HashMap;

use vstd::prelude::*;

use crate::bytecode::{located, pc_bounds, pcs_increase, Bytecode};
use crate::instruction::{encoding_starts_with_opcode, words_are_read_off_encoding, Instruction};
use crate::ir::{blocks_code, body_code, next_start, BasicBlock, IrFunction, IrInst, ValueType};
use crate::little_endian::le_value;

verus! {

broadcast use vstd::std_specs::hash::group_hash_axioms;

/// The type that a register is known to hold.
pub open spec fn register_type(types: Map<u32, ValueType>, register: u32) -> ValueType {
    if types.dom().contains(register) {
        types[register]
    } else {
        ValueType::Unknown
    }
}

/// The register that an instruction writes, if any.
pub open spec fn spec_instruction_dst(instruction: Instruction) -> Option<u32> {
    match instruction {
        Instruction::StoreZero { dst } => Some(dst),
        Instruction::StoreOne { dst } => Some(dst),
        Instruction::StoreInt8 { dst, .. } => Some(dst),
        Instruction::StoreInt16 { dst, .. } => Some(dst),
        Instruction::StoreInt32 { dst, .. } => Some(dst),
        Instruction::StoreFloat { dst, .. } => Some(dst),
        Instruction::StoreDouble { dst, .. } => Some(dst),
        Instruction::StoreNan { dst } => Some(dst),
        Instruction::StorePositiveInfinity { dst } => Some(dst),
        Instruction::StoreNegativeInfinity { dst } => Some(dst),
        Instruction::StoreNull { dst } => Some(dst),
        Instruction::StoreTrue { dst } => Some(dst),
        Instruction::StoreFalse { dst } => Some(dst),
        Instruction::StoreUndefined { dst } => Some(dst),
        Instruction::This { dst } => Some(dst),
        Instruction::PopIntoRegister { dst } => Some(dst),
        Instruction::Add { dst, .. } => Some(dst),
        Instruction::Sub { dst, .. } => Some(dst),
        Instruction::Mul { dst, .. } => Some(dst),
        Instruction::Div { dst, .. } => Some(dst),
        Instruction::Mod { dst, .. } => Some(dst),
        Instruction::Pow { dst, .. } => Some(dst),
        Instruction::Inc { dst, .. } => Some(dst),
        Instruction::Dec { dst, .. } => Some(dst),
        Instruction::BitOr { dst, .. } => Some(dst),
        Instruction::BitAnd { dst, .. } => Some(dst),
        Instruction::BitXor { dst, .. } => Some(dst),
        Instruction::ShiftLeft { dst, .. } => Some(dst),
        Instruction::ShiftRight { dst, .. } => Some(dst),
        Instruction::UnsignedShiftRight { dst, .. } => Some(dst),
        Instruction::StrictEq { dst, .. } => Some(dst),
        Instruction::StrictNotEq { dst, .. } => Some(dst),
        Instruction::Eq { dst, .. } => Some(dst),
        Instruction::NotEq { dst, .. } => Some(dst),
        Instruction::GreaterThan { dst, .. } => Some(dst),
        Instruction::GreaterThanOrEq { dst, .. } => Some(dst),
        Instruction::LessThan { dst, .. } => Some(dst),
        Instruction::LessThanOrEq { dst, .. } => Some(dst),
        Instruction::InstanceOf { dst, .. } => Some(dst),
        Instruction::GetName { dst, .. } => Some(dst),
        Instruction::GetNameGlobal { dst, .. } => Some(dst),
        Instruction::GetNameOrUndefined { dst, .. } => Some(dst),
        Instruction::GetNameAndLocator { dst, .. } => Some(dst),
        Instruction::In { dst, .. } => Some(dst),
        Instruction::GetPropertyByName { dst, .. } => Some(dst),
        Instruction::GetPropertyByNameWithThis { dst, .. } => Some(dst),
        Instruction::GetLengthProperty { dst, .. } => Some(dst),
        Instruction::GetPropertyByValue { dst, .. } => Some(dst),
        Instruction::GetPropertyByValuePush { dst, .. } => Some(dst),
        Instruction::StoreLiteral { dst, .. } => Some(dst),
        Instruction::StoreEmptyObject { dst } => Some(dst),
        Instruction::StoreNewArray { dst } => Some(dst),
        Instruction::StoreRegexp { dst, .. } => Some(dst),
        Instruction::GetFunction { dst, .. } => Some(dst),
        Instruction::CreateUnmappedArgumentsObject { dst } => Some(dst),
        Instruction::RestParameterInit { dst } => Some(dst),
        Instruction::SetRegisterFromAccumulator { dst } => Some(dst),
        Instruction::Move { dst, .. } => Some(dst),
        Instruction::GetArgument { dst, .. } => Some(dst),
        Instruction::ToPropertyKey { dst, .. } => Some(dst),
        Instruction::DeleteName { dst, .. } => Some(dst),
        _ => None,
    }
}

/// The type of what an instruction writes, given those of the registers before it.
pub open spec fn produced_type(
    instruction: Instruction,
    types: Map<u32, ValueType>,
) -> ValueType {
    match instruction {
        // Integer constants, and bitwise operators, which convert to 32-bit integers.
        Instruction::StoreZero { .. }
        | Instruction::StoreOne { .. }
        | Instruction::StoreInt8 { .. }
        | Instruction::StoreInt16 { .. }
        | Instruction::StoreInt32 { .. }
        | Instruction::BitOr { .. }
        | Instruction::BitAnd { .. }
        | Instruction::BitXor { .. }
        | Instruction::ShiftLeft { .. }
        | Instruction::ShiftRight { .. }
        | Instruction::UnsignedShiftRight { .. } => ValueType::Int32,
        // Other numeric constants.
        Instruction::StoreFloat { .. }
        | Instruction::StoreDouble { .. }
        | Instruction::StoreNan { .. }
        | Instruction::StorePositiveInfinity { .. }
        | Instruction::StoreNegativeInfinity { .. } => ValueType::Float64,
        // Boolean constants and comparisons.
        Instruction::StoreTrue { .. }
        | Instruction::StoreFalse { .. }
        | Instruction::StrictEq { .. }
        | Instruction::StrictNotEq { .. }
        | Instruction::Eq { .. }
        | Instruction::NotEq { .. }
        | Instruction::GreaterThan { .. }
        | Instruction::GreaterThanOrEq { .. }
        | Instruction::LessThan { .. }
        | Instruction::LessThanOrEq { .. }
        | Instruction::InstanceOf { .. }
        | Instruction::In { .. } => ValueType::Boolean,
        // Arithmetic keeps to integers if it starts from them.
        Instruction::Add { lhs, rhs, .. }
        | Instruction::Sub { lhs, rhs, .. }
        | Instruction::Mul { lhs, rhs, .. } => if register_type(types, lhs) == ValueType::Int32
            && register_type(types, rhs) == ValueType::Int32 {
            ValueType::Int32
        } else {
            ValueType::Unknown
        },
        Instruction::Inc { src, .. } | Instruction::Dec { src, .. } => if register_type(types, src)
            == ValueType::Int32 {
            ValueType::Int32
        } else {
            ValueType::Unknown
        },
        // A copy has the type of the original.
        Instruction::Move { src, .. } => register_type(types, src),
        _ => ValueType::Unknown,
    }
}

/// The known register types after an instruction.
pub open spec fn types_after(
    types: Map<u32, ValueType>,
    instruction: Instruction,
) -> Map<u32, ValueType> {
    let ty = produced_type(instruction, types);
    match spec_instruction_dst(instruction) {
        Some(dst) => if ty != ValueType::Unknown {
            types.insert(dst, ty)
        } else {
            types.remove(dst)
        },
        None => types,
    }
}

/// The known register types before instruction number `k` of a block body. At the
/// start of a block nothing is known.
pub open spec fn types_before(body: Seq<IrInst>, k: int) -> Map<u32, ValueType>
    decreases k,
{
    if k <= 0 {
        Map::empty()
    } else {
        types_after(types_before(body, k - 1), body[k - 1].instruction)
    }
}

/// A block body with every instruction annotated.
pub open spec fn annotated(body: Seq<IrInst>) -> Seq<IrInst> {
    Seq::new(
        body.len(),
        |k: int|
            IrInst {
                pc: body[k].pc,
                instruction: body[k].instruction,
                ty: produced_type(body[k].instruction, types_before(body, k)),
            },
    )
}

/// `after` is `before` with every instruction annotated, and nothing else changed.
pub open spec fn is_annotated(before: IrFunction, after: IrFunction) -> bool {
    &&& after.blocks@.len() == before.blocks@.len()
    &&& forall|i: int|
        0 <= i < after.blocks@.len() ==> {
            &&& (#[trigger] after.blocks@[i]).start_pc == before.blocks@[i].start_pc
            &&& after.blocks@[i].terminator == before.blocks@[i].terminator
            &&& after.blocks@[i].body@ == annotated(before.blocks@[i].body@)
        }
}

/// Run all optimization passes on the IR.
pub fn optimize(ir: &mut IrFunction)
    ensures
        is_annotated(*old(ir), *final(ir)),
{
    type_propagation(ir);
}

/// The block bodies of a function, one after the other.
pub open spec fn all_bodies(blocks: Seq<BasicBlock>) -> Seq<IrInst>
    decreases blocks.len(),
{
    if blocks.len() == 0 {
        seq![]
    } else {
        all_bodies(blocks.drop_last()) + blocks.last().body@
    }
}

/// The known types of instructions by position. Where two instructions share a
/// position, the later one counts.
pub open spec fn type_map(insts: Seq<IrInst>) -> Map<u32, ValueType>
    decreases insts.len(),
{
    if insts.len() == 0 {
        Map::empty()
    } else if insts.last().ty != ValueType::Unknown {
        type_map(insts.drop_last()).insert(insts.last().pc, insts.last().ty)
    } else {
        type_map(insts.drop_last())
    }
}

/// Build a type map (position to type) from the IR's type annotations,
/// for use by the lowering.
pub fn build_type_map(ir: &IrFunction) -> (map: HashMap<u32, ValueType>)
    ensures
        map@ == type_map(all_bodies(ir.blocks@)),
{
    let mut map: HashMap<u32, ValueType> = HashMap::new();
    let mut i: usize = 0;
    assert(all_bodies(ir.blocks@.take(0)) =~= seq![]);
    while i < ir.blocks.len()
        invariant
            i <= ir.blocks@.len(),
            map@ == type_map(all_bodies(ir.blocks@.take(i as int))),
        decreases ir.blocks@.len() - i,
    {
        let block = &ir.blocks[i];
        let ghost done = all_bodies(ir.blocks@.take(i as int));
        let mut j: usize = 0;
        assert(done + block.body@.take(0) =~= done);
        while j < block.body.len()
            invariant
                j <= block.body@.len(),
                map@ == type_map(done + block.body@.take(j as int)),
            decreases block.body@.len() - j,
        {
            let inst = &block.body[j];
            if inst.ty != ValueType::Unknown {
                map.insert(inst.pc, inst.ty);
            }
            j = j + 1;
            proof {
                let longer = done + block.body@.take(j as int);
                assert(longer.drop_last() =~= done + block.body@.take(j - 1));
            }
        }
        i = i + 1;
        proof {
            assert(block.body@.take(j as int) =~= block.body@);
            assert(ir.blocks@.take(i as int).drop_last() =~= ir.blocks@.take(i - 1));
        }
    }
    assert(ir.blocks@.take(i as int) =~= ir.blocks@);
    map
}

/// Type propagation: annotate each instruction with its known output type.
///
/// Seeds types from constants and bitwise operations (which always produce
/// Int32), then propagates through arithmetic when both inputs are known.
pub fn type_propagation(ir: &mut IrFunction)
    ensures
        is_annotated(*old(ir), *final(ir)),
{
    let mut i: usize = 0;
    while i < ir.blocks.len()
        invariant
            i <= ir.blocks@.len() == old(ir).blocks@.len(),
            forall|b: int|
                0 <= b < ir.blocks@.len() ==> {
                    &&& (#[trigger] ir.blocks@[b]).start_pc == old(ir).blocks@[b].start_pc
                    &&& ir.blocks@[b].terminator == old(ir).blocks@[b].terminator
                    &&& ir.blocks@[b].body@ == (if b < i {
                        annotated(old(ir).blocks@[b].body@)
                    } else {
                        old(ir).blocks@[b].body@
                    })
                },
        decreases ir.blocks@.len() - i,
    {
        annotate_body(&mut ir.blocks[i].body);
        i = i + 1;
    }
}

/// Annotates the instructions of one block.
fn annotate_body(body: &mut Vec<IrInst>)
    ensures
        final(body)@ == annotated(old(body)@),
{
    let mut reg_types: HashMap<u32, ValueType> = HashMap::new();
    let mut j: usize = 0;
    while j < body.len()
        invariant
            j <= body@.len() == old(body)@.len(),
            reg_types@ == types_before(old(body)@, j as int),
            forall|k: int|
                0 <= k < body@.len() ==> #[trigger] body@[k] == (if k < j {
                    annotated(old(body)@)[k]
                } else {
                    old(body)@[k]
                }),
        decreases body@.len() - j,
    {
        let mut inst: IrInst = body[j];
        let (produced_type, dst_reg) = infer_type(&inst.instruction, &reg_types);
        inst.ty = produced_type;
        body[j] = inst;

        match dst_reg {
            Some(dst) => {
                if produced_type != ValueType::Unknown {
                    reg_types.insert(dst, produced_type);
                } else {
                    reg_types.remove(&dst);
                }
            },
            None => {},
        }
        j = j + 1;
    }
    assert(body@ =~= annotated(old(body)@));
}

/// Returns the type that a register is known to hold.
fn known_type(reg_types: &HashMap<u32, ValueType>, register: u32) -> (ty: ValueType)
    ensures
        ty == register_type(reg_types@, register),
{
    match reg_types.get(&register) {
        Some(ty) => *ty,
        None => ValueType::Unknown,
    }
}

/// Infer the output type of an instruction and return it with the register that
/// the instruction writes.
pub fn infer_type(instruction: &Instruction, reg_types: &HashMap<u32, ValueType>) -> (inferred: (
    ValueType,
    Option<u32>,
))
    ensures
        inferred.0 == produced_type(*instruction, reg_types@),
        inferred.1 == spec_instruction_dst(*instruction),
        ({
            ||| *instruction is StrictEq
            ||| *instruction is StrictNotEq
            ||| *instruction is Eq
            ||| *instruction is NotEq
            ||| *instruction is GreaterThan
            ||| *instruction is GreaterThanOrEq
            ||| *instruction is LessThan
            ||| *instruction is LessThanOrEq
            ||| *instruction is InstanceOf
            ||| *instruction is In
        }) ==> inferred.0 == ValueType::Boolean,
{
    match *instruction {
        // Constants with known types.
        Instruction::StoreZero { dst }
        | Instruction::StoreOne { dst }
        | Instruction::StoreInt8 { dst, .. }
        | Instruction::StoreInt16 { dst, .. }
        | Instruction::StoreInt32 { dst, .. } => (ValueType::Int32, Some(dst)),

        Instruction::StoreFloat { dst, .. }
        | Instruction::StoreDouble { dst, .. }
        | Instruction::StoreNan { dst }
        | Instruction::StorePositiveInfinity { dst }
        | Instruction::StoreNegativeInfinity { dst } => (ValueType::Float64, Some(dst)),

        Instruction::StoreTrue { dst }
        | Instruction::StoreFalse { dst } => (ValueType::Boolean, Some(dst)),

        // Bitwise operators always produce Int32.
        Instruction::BitOr { dst, .. }
        | Instruction::BitAnd { dst, .. }
        | Instruction::BitXor { dst, .. }
        | Instruction::ShiftLeft { dst, .. }
        | Instruction::ShiftRight { dst, .. }
        | Instruction::UnsignedShiftRight { dst, .. } => (ValueType::Int32, Some(dst)),

        // Comparisons always produce Boolean.
        Instruction::StrictEq { dst, .. }
        | Instruction::StrictNotEq { dst, .. }
        | Instruction::Eq { dst, .. }
        | Instruction::NotEq { dst, .. }
        | Instruction::GreaterThan { dst, .. }
        | Instruction::GreaterThanOrEq { dst, .. }
        | Instruction::LessThan { dst, .. }
        | Instruction::LessThanOrEq { dst, .. }
        | Instruction::InstanceOf { dst, .. }
        | Instruction::In { dst, .. } => (ValueType::Boolean, Some(dst)),

        // Arithmetic: Int32 if both inputs are Int32.
        Instruction::Add { dst, lhs, rhs }
        | Instruction::Sub { dst, lhs, rhs }
        | Instruction::Mul { dst, lhs, rhs } => {
            let lt = known_type(reg_types, lhs);
            let rt = known_type(reg_types, rhs);
            let ty = if lt == ValueType::Int32 && rt == ValueType::Int32 {
                ValueType::Int32
            } else {
                ValueType::Unknown
            };
            (ty, Some(dst))
        },

        // Inc/Dec: Int32 if source is Int32.
        Instruction::Inc { dst, src } | Instruction::Dec { dst, src } => {
            let st = known_type(reg_types, src);
            let ty = if st == ValueType::Int32 {
                ValueType::Int32
            } else {
                ValueType::Unknown
            };
            (ty, Some(dst))
        },

        // Move propagates the source type.
        Instruction::Move { dst, src } => (known_type(reg_types, src), Some(dst)),

        // Everything else: Unknown, and track dst if it has one.
        _ => {
            let dst = instruction_dst(instruction);
            (ValueType::Unknown, dst)
        },
    }
}

/// Return the destination register of an instruction, if any.
pub fn instruction_dst(instruction: &Instruction) -> (dst: Option<u32>)
    ensures
        dst == spec_instruction_dst(*instruction),
{
    match *instruction {
        Instruction::StoreZero { dst }
        | Instruction::StoreOne { dst }
        | Instruction::StoreInt8 { dst, .. }
        | Instruction::StoreInt16 { dst, .. }
        | Instruction::StoreInt32 { dst, .. }
        | Instruction::StoreFloat { dst, .. }
        | Instruction::StoreDouble { dst, .. }
        | Instruction::StoreNan { dst }
        | Instruction::StorePositiveInfinity { dst }
        | Instruction::StoreNegativeInfinity { dst }
        | Instruction::StoreNull { dst }
        | Instruction::StoreTrue { dst }
        | Instruction::StoreFalse { dst }
        | Instruction::StoreUndefined { dst }
        | Instruction::This { dst }
        | Instruction::PopIntoRegister { dst }
        | Instruction::Add { dst, .. }
        | Instruction::Sub { dst, .. }
        | Instruction::Mul { dst, .. }
        | Instruction::Div { dst, .. }
        | Instruction::Mod { dst, .. }
        | Instruction::Pow { dst, .. }
        | Instruction::Inc { dst, .. }
        | Instruction::Dec { dst, .. }
        | Instruction::BitOr { dst, .. }
        | Instruction::BitAnd { dst, .. }
        | Instruction::BitXor { dst, .. }
        | Instruction::ShiftLeft { dst, .. }
        | Instruction::ShiftRight { dst, .. }
        | Instruction::UnsignedShiftRight { dst, .. }
        | Instruction::StrictEq { dst, .. }
        | Instruction::StrictNotEq { dst, .. }
        | Instruction::Eq { dst, .. }
        | Instruction::NotEq { dst, .. }
        | Instruction::GreaterThan { dst, .. }
        | Instruction::GreaterThanOrEq { dst, .. }
        | Instruction::LessThan { dst, .. }
        | Instruction::LessThanOrEq { dst, .. }
        | Instruction::InstanceOf { dst, .. }
        | Instruction::GetName { dst, .. }
        | Instruction::GetNameGlobal { dst, .. }
        | Instruction::GetNameOrUndefined { dst, .. }
        | Instruction::GetNameAndLocator { dst, .. }
        | Instruction::In { dst, .. }
        | Instruction::GetPropertyByName { dst, .. }
        | Instruction::GetPropertyByNameWithThis { dst, .. }
        | Instruction::GetLengthProperty { dst, .. }
        | Instruction::GetPropertyByValue { dst, .. }
        | Instruction::GetPropertyByValuePush { dst, .. }
        | Instruction::StoreLiteral { dst, .. }
        | Instruction::StoreEmptyObject { dst }
        | Instruction::StoreNewArray { dst }
        | Instruction::StoreRegexp { dst, .. }
        | Instruction::GetFunction { dst, .. }
        | Instruction::CreateUnmappedArgumentsObject { dst }
        | Instruction::RestParameterInit { dst }
        | Instruction::SetRegisterFromAccumulator { dst }
        | Instruction::Move { dst, .. }
        | Instruction::GetArgument { dst, .. }
        | Instruction::ToPropertyKey { dst, .. }
        | Instruction::DeleteName { dst, .. } => Some(dst),
        _ => None,
    }
}

/// Annotations do not matter to type propagation, only instructions do.
proof fn types_before_agree(a: Seq<IrInst>, b: Seq<IrInst>, k: int)
    requires
        body_code(a) == body_code(b),
        k <= a.len(),
    ensures
        types_before(a, k) == types_before(b, k),
    decreases k,
{
    if k > 0 {
        types_before_agree(a, b, k - 1);
        assert(body_code(a).len() == a.len());
        assert(body_code(b).len() == b.len());
        assert(body_code(a)[k - 1] == (a[k - 1].pc, a[k - 1].instruction));
        assert(body_code(b)[k - 1] == (b[k - 1].pc, b[k - 1].instruction));
    }
}

/// Annotating keeps the instructions and their positions.
proof fn annotated_keeps_code(body: Seq<IrInst>)
    ensures
        body_code(annotated(body)) == body_code(body),
{
    assert(body_code(annotated(body)) =~= body_code(body));
}

/// Optimizing again changes nothing.
pub proof fn optimize_is_idempotent(first: IrFunction, second: IrFunction, third: IrFunction)
    requires
        is_annotated(first, second),
        is_annotated(second, third),
    ensures
        third.blocks@.len() == second.blocks@.len(),
        forall|i: int|
            0 <= i < third.blocks@.len() ==> (#[trigger] third.blocks@[i]).body@
                == second.blocks@[i].body@ && third.blocks@[i].start_pc
                == second.blocks@[i].start_pc && third.blocks@[i].terminator
                == second.blocks@[i].terminator,
{
    assert forall|i: int| 0 <= i < third.blocks@.len() implies (#[trigger] third.blocks@[i]).body@
        == second.blocks@[i].body@ && third.blocks@[i].start_pc == second.blocks@[i].start_pc
        && third.blocks@[i].terminator == second.blocks@[i].terminator by {
        let body = first.blocks@[i].body@;
        assert(second.blocks@[i].body@ == annotated(body));
        annotated_keeps_code(body);
        assert forall|k: int| 0 <= k < body.len() implies annotated(annotated(body))[k]
            == #[trigger] annotated(body)[k] by {
            types_before_agree(annotated(body), body, k);
        }
        assert(annotated(annotated(body)) =~= annotated(body));
    }
}

/// Optimizing keeps the blocks: what was an IR of some code still is.
pub proof fn optimize_keeps_code(
    before: IrFunction,
    after: IrFunction,
    code: Seq<(u32, Instruction)>,
)
    requires
        is_annotated(before, after),
        before.represents(code),
    ensures
        after.represents(code),
{
    assert forall|i: int| 0 <= i < after.blocks@.len() implies (#[trigger] after.blocks@[i]).code()
        == before.blocks@[i].code() by {
        annotated_keeps_code(before.blocks@[i].body@);
    }
    same_blocks_code(before.blocks@, after.blocks@);
    assert forall|i: int| 0 <= i < after.blocks@.len() implies (
    #[trigger] after.blocks@[i]).is_basic_block_of(code, next_start(after.blocks@, i)) by {
        assert(before.blocks@[i].is_basic_block_of(code, next_start(before.blocks@, i)));
        assert(next_start(after.blocks@, i) == next_start(before.blocks@, i)) by {
            if i + 1 < after.blocks@.len() {
                assert(after.blocks@[i + 1].start_pc == before.blocks@[i + 1].start_pc);
            }
        }
    }
}

proof fn same_blocks_code(a: Seq<BasicBlock>, b: Seq<BasicBlock>)
    requires
        a.len() == b.len(),
        forall|i: int| 0 <= i < b.len() ==> (#[trigger] b[i]).code() == a[i].code(),
    ensures
        blocks_code(a) == blocks_code(b),
    decreases a.len(),
{
    if a.len() > 0 {
        same_blocks_code(a.drop_last(), b.drop_last());
    }
}

/// Where positions are distinct, the type map holds the annotation of every
/// instruction whose type is known, and nothing else.
pub proof fn type_map_holds_annotations(insts: Seq<IrInst>, k: int)
    requires
        forall|i: int, j: int|
            0 <= i < j < insts.len() ==> (#[trigger] insts[i]).pc != (#[trigger] insts[j]).pc,
        0 <= k < insts.len(),
    ensures
        insts[k].ty != ValueType::Unknown ==> type_map(insts).dom().contains(insts[k].pc)
            && type_map(insts)[insts[k].pc] == insts[k].ty,
        insts[k].ty == ValueType::Unknown ==> !type_map(insts).dom().contains(insts[k].pc),
    decreases insts.len(),
{
    let shorter = insts.drop_last();
    type_map_positions(shorter);
    if k < shorter.len() {
        type_map_holds_annotations(shorter, k);
        assert(shorter[k] == insts[k]);
        assert(insts[k].pc != insts[insts.len() - 1].pc);
    } else {
        assert forall|i: int| 0 <= i < shorter.len() implies (#[trigger] shorter[i]).pc
            != insts[k].pc by {
            assert(shorter[i] == insts[i]);
        }
        assert(!type_map(shorter).dom().contains(insts[k].pc));
    }
}

/// Every position in the type map is that of an instruction with a known type.
pub proof fn type_map_positions(insts: Seq<IrInst>)
    ensures
        forall|pc: u32| #[trigger]
            type_map(insts).dom().contains(pc) ==> exists|k: int|
                0 <= k < insts.len() && (#[trigger] insts[k]).pc == pc && insts[k].ty
                    != ValueType::Unknown,
    decreases insts.len(),
{
    if insts.len() > 0 {
        let shorter = insts.drop_last();
        type_map_positions(shorter);
        assert forall|pc: u32| #[trigger] type_map(insts).dom().contains(pc) implies exists|k: int|
            0 <= k < insts.len() && (#[trigger] insts[k]).pc == pc && insts[k].ty
                != ValueType::Unknown by {
            if type_map(shorter).dom().contains(pc) {
                let k = choose|k: int|
                    0 <= k < shorter.len() && (#[trigger] shorter[k]).pc == pc && shorter[k].ty
                        != ValueType::Unknown;
                assert(insts[k] == shorter[k]);
            } else {
                assert(insts[insts.len() - 1].pc == pc);
            }
        }
    }
}

/// Positions grow along some code.
pub open spec fn positions_increase(code: Seq<(u32, Instruction)>) -> bool {
    forall|i: int, j: int|
        0 <= i < j < code.len() ==> (#[trigger] code[i]).0 < (#[trigger] code[j]).0
}

/// There is an instruction at a position of some code.
spec fn occurs(code: Seq<(u32, Instruction)>, pc: u32) -> bool {
    exists|k: int| 0 <= k < code.len() && (#[trigger] code[k]).0 == pc
}

/// An instruction in a block body is part of the code, and along the code positions grow.
proof fn bodies_follow_code(blocks: Seq<BasicBlock>)
    requires
        positions_increase(blocks_code(blocks)),
    ensures
        forall|i: int|
            0 <= i < all_bodies(blocks).len() ==> occurs(
                blocks_code(blocks),
                (#[trigger] all_bodies(blocks)[i]).pc,
            ),
        forall|i: int, j: int|
            0 <= i < j < all_bodies(blocks).len() ==> (#[trigger] all_bodies(blocks)[i]).pc < (
            #[trigger] all_bodies(blocks)[j]).pc,
    decreases blocks.len(),
{
    if blocks.len() > 0 {
        let front = blocks.drop_last();
        let body = blocks.last().body@;
        let code = blocks_code(blocks);
        let split = blocks_code(front).len();
        let bodies = all_bodies(blocks);
        let count = all_bodies(front).len();
        assert forall|i: int, j: int| 0 <= i < j < split implies (
        #[trigger] blocks_code(front)[i]).0 < (#[trigger] blocks_code(front)[j]).0 by {
            assert(code[i] == blocks_code(front)[i]);
            assert(code[j] == blocks_code(front)[j]);
        }
        bodies_follow_code(front);
        assert forall|i: int| 0 <= i < count implies exists|k: int|
            0 <= k < split && (#[trigger] code[k]).0 == (#[trigger] bodies[i]).pc by {
            assert(bodies[i] == all_bodies(front)[i]);
            let k = choose|k: int|
                0 <= k < split && (#[trigger] blocks_code(front)[k]).0 == bodies[i].pc;
            assert(code[k] == blocks_code(front)[k]);
        }
        assert forall|i: int| count <= i < bodies.len() implies code[split + (i - count)].0 == (
        #[trigger] bodies[i]).pc && split + (i - count) < code.len() by {
            assert(bodies[i] == body[i - count]);
            assert(body_code(body)[i - count] == (body[i - count].pc, body[i
                - count].instruction));
            assert(code[split + (i - count)] == blocks.last().code()[i - count]);
        }
        assert forall|i: int| 0 <= i < bodies.len() implies occurs(
            code,
            (#[trigger] bodies[i]).pc,
        ) by {
            if i >= count {
                assert(code[split + (i - count)].0 == bodies[i].pc);
            }
        }
        assert forall|i: int, j: int| 0 <= i < j < bodies.len() implies (
        #[trigger] bodies[i]).pc < (#[trigger] bodies[j]).pc by {
            if j < count {
                assert(bodies[i] == all_bodies(front)[i]);
                assert(bodies[j] == all_bodies(front)[j]);
            } else {
                let to = split + (j - count);
                let from = if i < count {
                    choose|k: int|
                        0 <= k < split && (#[trigger] code[k]).0 == bodies[i].pc
                } else {
                    split + (i - count)
                };
                assert(code[from].0 < code[to].0);
            }
        }
    }
}

/// The type map of the IR of some bytecode holds the annotation of every instruction whose
/// type is known, under its position, and nothing else.
pub proof fn type_map_is_exact(ir: IrFunction, bytecode: Bytecode, k: int)
    requires
        bytecode.wf(),
        ir.represents(located(bytecode.program())),
        0 <= k < all_bodies(ir.blocks@).len(),
    ensures
        ({
            let inst = all_bodies(ir.blocks@)[k];
            let map = type_map(all_bodies(ir.blocks@));
            &&& map.dom().contains(inst.pc) <==> inst.ty != ValueType::Unknown
            &&& inst.ty != ValueType::Unknown ==> map[inst.pc] == inst.ty
        }),
{
    let program = bytecode.program();
    let code = located(program);
    assert forall|i: int, j: int| 0 <= i < j < code.len() implies (#[trigger] code[i]).0 < (
    #[trigger] code[j]).0 by {
        pcs_increase(program, i, j);
        pc_bounds(program, i);
        pc_bounds(program, j);
    }
    bodies_follow_code(ir.blocks@);
    type_map_holds_annotations(all_bodies(ir.blocks@), k);
}

/// Integer constants and bitwise operators give integers, other numeric constants give floats,
/// and boolean constants and comparisons give booleans, whatever is known of the registers.
pub proof fn constants_and_comparisons_have_known_types(
    instruction: Instruction,
    types: Map<u32, ValueType>,
)
    ensures
        ({
            ||| instruction is StoreZero
            ||| instruction is StoreOne
            ||| instruction is StoreInt8
            ||| instruction is StoreInt16
            ||| instruction is StoreInt32
            ||| instruction is BitOr
            ||| instruction is BitAnd
            ||| instruction is BitXor
            ||| instruction is ShiftLeft
            ||| instruction is ShiftRight
            ||| instruction is UnsignedShiftRight
        }) ==> produced_type(instruction, types) == ValueType::Int32,
        ({
            ||| instruction is StoreFloat
            ||| instruction is StoreDouble
            ||| instruction is StoreNan
            ||| instruction is StorePositiveInfinity
            ||| instruction is StoreNegativeInfinity
        }) ==> produced_type(instruction, types) == ValueType::Float64,
        ({
            ||| instruction is StoreTrue
            ||| instruction is StoreFalse
            ||| instruction is StrictEq
            ||| instruction is StrictNotEq
            ||| instruction is Eq
            ||| instruction is NotEq
            ||| instruction is GreaterThan
            ||| instruction is GreaterThanOrEq
            ||| instruction is LessThan
            ||| instruction is LessThanOrEq
            ||| instruction is InstanceOf
            ||| instruction is In
        }) ==> produced_type(instruction, types) == ValueType::Boolean,
{
}

/// Sums, differences and products of integers are integers, and so are the neighbours of an
/// integer. Nothing is known of what comes of another operand.
pub proof fn integers_stay_integers(
    types: Map<u32, ValueType>,
    dst: u32,
    lhs: u32,
    rhs: u32,
)
    ensures
        ({
            let known = types.contains_pair(lhs, ValueType::Int32) && types.contains_pair(
                rhs,
                ValueType::Int32,
            );
            let expected = if known {
                ValueType::Int32
            } else {
                ValueType::Unknown
            };
            &&& produced_type(Instruction::Add { dst, lhs, rhs }, types) == expected
            &&& produced_type(Instruction::Sub { dst, lhs, rhs }, types) == expected
            &&& produced_type(Instruction::Mul { dst, lhs, rhs }, types) == expected
        }),
        ({
            let expected = if types.contains_pair(lhs, ValueType::Int32) {
                ValueType::Int32
            } else {
                ValueType::Unknown
            };
            &&& produced_type(Instruction::Inc { dst, src: lhs }, types) == expected
            &&& produced_type(Instruction::Dec { dst, src: lhs }, types) == expected
        }),
{
}

/// A copy has the type of what is copied, and nothing is known of a register without a type.
pub proof fn copies_keep_their_type(types: Map<u32, ValueType>, dst: u32, src: u32, ty: ValueType)
    ensures
        types.contains_pair(src, ty) ==> produced_type(Instruction::Move { dst, src }, types)
            == ty,
        !types.contains_key(src) ==> produced_type(Instruction::Move { dst, src }, types)
            == ValueType::Unknown,
{
}

/// Nothing is known of what any other operation gives.
pub proof fn other_results_are_unknown(instruction: Instruction, types: Map<u32, ValueType>)
    requires
        !({
            ||| instruction is StoreZero
            ||| instruction is StoreOne
            ||| instruction is StoreInt8
            ||| instruction is StoreInt16
            ||| instruction is StoreInt32
            ||| instruction is BitOr
            ||| instruction is BitAnd
            ||| instruction is BitXor
            ||| instruction is ShiftLeft
            ||| instruction is ShiftRight
            ||| instruction is UnsignedShiftRight
            ||| instruction is StoreFloat
            ||| instruction is StoreDouble
            ||| instruction is StoreNan
            ||| instruction is StorePositiveInfinity
            ||| instruction is StoreNegativeInfinity
            ||| instruction is StoreTrue
            ||| instruction is StoreFalse
            ||| instruction is StrictEq
            ||| instruction is StrictNotEq
            ||| instruction is Eq
            ||| instruction is NotEq
            ||| instruction is GreaterThan
            ||| instruction is GreaterThanOrEq
            ||| instruction is LessThan
            ||| instruction is LessThanOrEq
            ||| instruction is InstanceOf
            ||| instruction is In
            ||| instruction is Add
            ||| instruction is Sub
            ||| instruction is Mul
            ||| instruction is Inc
            ||| instruction is Dec
            ||| instruction is Move
        }),
    ensures
        produced_type(instruction, types) == ValueType::Unknown,
{
}

/// Which register an instruction writes can be read off its encoding. It is the first word,
/// and for `GetArgument` and `ToPropertyKey`, whose bytes are 15 and 77, the second.
pub proof fn destination_is_read_off_encoding(instruction: Instruction)
    requires
        instruction.wf(),
    ensures
        ({
            let bytes = instruction.encoding();
            let byte = bytes[0];
            if byte == 15 || byte == 77 {
                &&& bytes.len() >= 9
                &&& spec_instruction_dst(instruction) matches Some(dst) && dst == le_value(
                    bytes.subrange(5, 9),
                )
            } else if byte <= 16 || byte == 19 || 21 <= byte <= 26 || 29 <= byte <= 33 || 35 <= byte
                <= 46 || 66 <= byte <= 69 || 75 <= byte <= 82 || 91 <= byte <= 94 || byte == 97
                || 101 <= byte <= 103 {
                &&& bytes.len() >= 5
                &&& spec_instruction_dst(instruction) matches Some(dst) && dst == le_value(
                    bytes.subrange(1, 5),
                )
            } else {
                spec_instruction_dst(instruction) is None
            }
        }),
{
    encoding_starts_with_opcode(instruction);
    if let Some(dst) = spec_instruction_dst(instruction) {
        let i: int = if instruction is GetArgument || instruction is ToPropertyKey {
            1
        } else {
            0
        };
        assert(instruction.words().len() > i);
        assert(instruction.words()[i] == dst);
        words_are_read_off_encoding(instruction, i);
    }
}

/// What is known of a register at some point of a block is the type of what the last
/// instruction before that point wrote into it.
proof fn type_is_of_last_write(body: Seq<IrInst>, j: int, k: int, register: u32)
    requires
        0 <= j < k <= body.len(),
        spec_instruction_dst(body[j].instruction) == Some(register),
        forall|i: int|
            j < i < k ==> spec_instruction_dst((#[trigger] body[i]).instruction) != Some(register),
    ensures
        register_type(types_before(body, k), register) == annotated(body)[j].ty,
    decreases k,
{
    if j < k - 1 {
        type_is_of_last_write(body, j, k - 1, register);
        assert(spec_instruction_dst(body[k - 1].instruction) != Some(register));
    }
}

/// Nothing is known of a register that no instruction of the block has written yet.
proof fn nothing_known_without_write(body: Seq<IrInst>, k: int, register: u32)
    requires
        0 <= k <= body.len(),
        forall|i: int|
            0 <= i < k ==> spec_instruction_dst((#[trigger] body[i]).instruction) != Some(register),
    ensures
        register_type(types_before(body, k), register) == ValueType::Unknown,
    decreases k,
{
    if k > 0 {
        nothing_known_without_write(body, k - 1, register);
        assert(spec_instruction_dst(body[k - 1].instruction) != Some(register));
    }
}

/// A type that is known of a result is known wherever the result is copied, as long as no
/// other instruction has written the register.
pub proof fn types_travel_with_copies(body: Seq<IrInst>, j: int, k: int, dst: u32, src: u32)
    requires
        0 <= j < k < body.len(),
        body[k].instruction == (Instruction::Move { dst, src }),
        spec_instruction_dst(body[j].instruction) == Some(src),
        forall|i: int|
            j < i < k ==> spec_instruction_dst((#[trigger] body[i]).instruction) != Some(src),
    ensures
        annotated(body)[k].ty == annotated(body)[j].ty,
{
    type_is_of_last_write(body, j, k, src);
}

/// A sum, difference or product is known for an integer exactly if both operands were written
/// last by instructions that are known to give integers.
pub proof fn types_travel_into_arithmetic(
    body: Seq<IrInst>,
    left: int,
    right: int,
    k: int,
    dst: u32,
    lhs: u32,
    rhs: u32,
)
    requires
        0 <= left < k < body.len(),
        0 <= right < k,
        body[k].instruction == (Instruction::Add { dst, lhs, rhs }) || body[k].instruction == (
        Instruction::Sub { dst, lhs, rhs }) || body[k].instruction == (Instruction::Mul {
            dst,
            lhs,
            rhs,
        }),
        spec_instruction_dst(body[left].instruction) == Some(lhs),
        spec_instruction_dst(body[right].instruction) == Some(rhs),
        forall|i: int|
            left < i < k ==> spec_instruction_dst((#[trigger] body[i]).instruction) != Some(lhs),
        forall|i: int|
            right < i < k ==> spec_instruction_dst((#[trigger] body[i]).instruction) != Some(rhs),
    ensures
        annotated(body)[k].ty == (if annotated(body)[left].ty == ValueType::Int32 && annotated(
            body,
        )[right].ty == ValueType::Int32 {
            ValueType::Int32
        } else {
            ValueType::Unknown
        }),
{
    type_is_of_last_write(body, left, k, lhs);
    type_is_of_last_write(body, right, k, rhs);
}

/// The same of an increment or decrement and its one operand.
pub proof fn types_travel_into_steps(body: Seq<IrInst>, j: int, k: int, dst: u32, src: u32)
    requires
        0 <= j < k < body.len(),
        body[k].instruction == (Instruction::Inc { dst, src }) || body[k].instruction == (
        Instruction::Dec { dst, src }),
        spec_instruction_dst(body[j].instruction) == Some(src),
        forall|i: int|
            j < i < k ==> spec_instruction_dst((#[trigger] body[i]).instruction) != Some(src),
    ensures
        annotated(body)[k].ty == (if annotated(body)[j].ty == ValueType::Int32 {
            ValueType::Int32
        } else {
            ValueType::Unknown
        }),
{
    type_is_of_last_write(body, j, k, src);
}

/// No type is carried into a block: what uses a register that the block has not written yet
/// has no known type.
pub proof fn types_do_not_cross_blocks(
    body: Seq<IrInst>,
    k: int,
    dst: u32,
    register: u32,
    other: u32,
)
    requires
        0 <= k < body.len(),
        forall|i: int|
            0 <= i < k ==> spec_instruction_dst((#[trigger] body[i]).instruction) != Some(register),
        ({
            let instruction = body[k].instruction;
            ||| instruction == (Instruction::Move { dst, src: register })
            ||| instruction == (Instruction::Inc { dst, src: register })
            ||| instruction == (Instruction::Dec { dst, src: register })
            ||| instruction == (Instruction::Add { dst, lhs: register, rhs: other })
            ||| instruction == (Instruction::Add { dst, lhs: other, rhs: register })
            ||| instruction == (Instruction::Sub { dst, lhs: register, rhs: other })
            ||| instruction == (Instruction::Sub { dst, lhs: other, rhs: register })
            ||| instruction == (Instruction::Mul { dst, lhs: register, rhs: other })
            ||| instruction == (Instruction::Mul { dst, lhs: other, rhs: register })
        }),
    ensures
        annotated(body)[k].ty == ValueType::Unknown,
{
    nothing_known_without_write(body, k, register);
}

/// An annotation depends on the instructions before it only, and each instruction that has a
/// type of its own is annotated with it, wherever it stands.
pub proof fn every_instruction_is_annotated(
    before: IrFunction,
    after: IrFunction,
    i: int,
    k: int,
)
    requires
        is_annotated(before, after),
        0 <= i < before.blocks@.len(),
        0 <= k < before.blocks@[i].body@.len(),
    ensures
        after.blocks@.len() == before.blocks@.len(),
        after.blocks@[i].body@.len() == before.blocks@[i].body@.len(),
        after.blocks@[i].start_pc == before.blocks@[i].start_pc,
        after.blocks@[i].terminator == before.blocks@[i].terminator,
        ({
            let inst = after.blocks@[i].body@[k];
            let instruction = inst.instruction;
            &&& inst.pc == before.blocks@[i].body@[k].pc
            &&& instruction == before.blocks@[i].body@[k].instruction
            &&& ({
                ||| instruction is StoreZero
                ||| instruction is StoreOne
                ||| instruction is StoreInt8
                ||| instruction is StoreInt16
                ||| instruction is StoreInt32
                ||| instruction is BitOr
                ||| instruction is BitAnd
                ||| instruction is BitXor
                ||| instruction is ShiftLeft
                ||| instruction is ShiftRight
                ||| instruction is UnsignedShiftRight
            }) ==> inst.ty == ValueType::Int32
            &&& ({
                ||| instruction is StoreFloat
                ||| instruction is StoreDouble
                ||| instruction is StoreNan
                ||| instruction is StorePositiveInfinity
                ||| instruction is StoreNegativeInfinity
            }) ==> inst.ty == ValueType::Float64
            &&& ({
                ||| instruction is StoreTrue
                ||| instruction is StoreFalse
                ||| instruction is StrictEq
                ||| instruction is StrictNotEq
                ||| instruction is Eq
                ||| instruction is NotEq
                ||| instruction is GreaterThan
                ||| instruction is GreaterThanOrEq
                ||| instruction is LessThan
                ||| instruction is LessThanOrEq
                ||| instruction is InstanceOf
                ||| instruction is In
            }) ==> inst.ty == ValueType::Boolean
        }),
{
    let body = before.blocks@[i].body@;
    assert(after.blocks@[i].body@ == annotated(body));
}

/// The bodies of the blocks lie one after the other, in order and without gaps.
proof fn body_lies_in_all_bodies(blocks: Seq<BasicBlock>, i: int, j: int) -> (k: int)
    requires
        0 <= i < blocks.len(),
        0 <= j < blocks[i].body@.len(),
    ensures
        0 <= k < all_bodies(blocks).len(),
        all_bodies(blocks)[k] == blocks[i].body@[j],
    decreases blocks.len(),
{
    let front = blocks.drop_last();
    if i < front.len() {
        let k = body_lies_in_all_bodies(front, i, j);
        assert(all_bodies(blocks)[k] == all_bodies(front)[k]);
        k
    } else {
        let k = all_bodies(front).len() + j;
        assert(all_bodies(blocks)[k] == blocks.last().body@[j]);
        k
    }
}

/// Whatever instruction of whatever block has a known type, the type map of the bytecode has it
/// under the position of the instruction; and it has nothing there for one without.
pub proof fn type_map_covers_every_block(ir: IrFunction, bytecode: Bytecode, i: int, j: int)
    requires
        bytecode.wf(),
        ir.represents(located(bytecode.program())),
        0 <= i < ir.blocks@.len(),
        0 <= j < ir.blocks@[i].body@.len(),
    ensures
        ({
            let inst = ir.blocks@[i].body@[j];
            let map = type_map(all_bodies(ir.blocks@));
            &&& inst.ty == ValueType::Unknown ==> !map.contains_key(inst.pc)
            &&& inst.ty != ValueType::Unknown ==> map.contains_pair(inst.pc, inst.ty)
        }),
{
    let k = body_lies_in_all_bodies(ir.blocks@, i, j);
    type_map_is_exact(ir, bytecode, k);
}

/// The type map has nothing but annotations: whatever it holds is the type of an instruction in
/// some block, at this position.
pub proof fn type_map_holds_nothing_else(blocks: Seq<BasicBlock>, pc: u32)
    requires
        type_map(all_bodies(blocks)).contains_key(pc),
    ensures
        exists|i: int, j: int|
            0 <= i < blocks.len() && 0 <= j < blocks[i].body@.len() && (
            #[trigger] blocks[i].body@[j]).pc == pc && blocks[i].body@[j].ty != ValueType::Unknown,
{
    type_map_positions(all_bodies(blocks));
    let k = choose|k: int|
        0 <= k < all_bodies(blocks).len() && (#[trigger] all_bodies(blocks)[k]).pc == pc
            && all_bodies(blocks)[k].ty != ValueType::Unknown;
    let (i, j) = place_in_blocks(blocks, k);
    assert(blocks[i].body@[j] == all_bodies(blocks)[k]);
}

/// Every instruction of the bodies is one of some block.
proof fn place_in_blocks(blocks: Seq<BasicBlock>, k: int) -> (place: (int, int))
    requires
        0 <= k < all_bodies(blocks).len(),
    ensures
        0 <= place.0 < blocks.len(),
        0 <= place.1 < blocks[place.0].body@.len(),
        blocks[place.0].body@[place.1] == all_bodies(blocks)[k],
    decreases blocks.len(),
{
    let front = blocks.drop_last();
    let n = all_bodies(front).len();
    if k < n {
        let place = place_in_blocks(front, k);
        assert(all_bodies(blocks)[k] == all_bodies(front)[k]);
        place
    } else {
        assert(all_bodies(blocks)[k] == blocks.last().body@[k - n]);
        (blocks.len() - 1, k - n)
    }
}

} // verus!
