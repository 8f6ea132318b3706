//! Structured intermediate representation for compilation.
//!
//! The IR splits flat bytecode into basic blocks, which gives optimization passes
//! and lowering structured access to it. It reuses [`Instruction`]: there is no
//! parallel operation type.

use std::collections::HashSet;

use vstd::prelude::*;

use crate::bytecode::{located, pc_bounds, Bytecode};
use crate::instruction::{encoding_starts_with_opcode, words_are_read_off_encoding, Instruction};
use crate::little_endian::le_value;

verus! {

broadcast use vstd::std_specs::hash::group_hash_axioms;

/// Block identifier, indexing into [`IrFunction::blocks`].
#[derive(Clone, Copy, Debug, PartialEq, Eq, Hash, Structural)]
pub struct BlockId(pub usize);

/// Known value type produced by an instruction.
#[derive(Clone, Copy, Debug, PartialEq, Eq, Structural)]
pub enum ValueType {
    /// No type information.
    Unknown,
    /// Known 32-bit integer.
    Int32,
    /// Known 64-bit float.
    Float64,
    /// Known boolean.
    Boolean,
}

/// An instruction in the IR: its position, the instruction, and its known output type.
#[derive(Clone, Copy, Debug, PartialEq, Eq, Structural)]
pub struct IrInst {
    pub pc: u32,
    pub instruction: Instruction,
    pub ty: ValueType,
}

/// How a basic block transfers control.
#[derive(Clone, Copy, Debug, PartialEq, Eq, Structural)]
pub enum Terminator {
    /// Falls through to the next block: there is no explicit jump in the bytecode.
    Fallthrough,
    /// The block's last instruction is a terminator (jump, branch, return).
    /// Stored with its position so the lowering can access it.
    Instruction(u32, Instruction),
    /// End of bytecode (implicit return).
    End,
}

/// A basic block: a sequence of non-branching instructions followed by a terminator.
pub struct BasicBlock {
    /// The position where this block starts.
    pub start_pc: u32,
    /// Non-terminator instructions with their positions and type annotations.
    pub body: Vec<IrInst>,
    /// How this block ends.
    pub terminator: Terminator,
}

/// The complete IR for one function.
pub struct IrFunction {
    pub blocks: Vec<BasicBlock>,
}

/// The instructions of a block body with their positions, without annotations.
pub open spec fn body_code(body: Seq<IrInst>) -> Seq<(u32, Instruction)> {
    body.map_values(|inst: IrInst| (inst.pc, inst.instruction))
}

impl BasicBlock {
    /// All instructions of the block with their positions, the terminator included.
    pub open spec fn code(self) -> Seq<(u32, Instruction)> {
        match self.terminator {
            Terminator::Instruction(pc, instruction) => body_code(self.body@).push(
                (pc, instruction),
            ),
            _ => body_code(self.body@),
        }
    }
}

/// The instructions of all blocks, in order.
pub open spec fn blocks_code(blocks: Seq<BasicBlock>) -> Seq<(u32, Instruction)>
    decreases blocks.len(),
{
    if blocks.len() == 0 {
        seq![]
    } else {
        blocks_code(blocks.drop_last()) + blocks.last().code()
    }
}

/// Some instruction of `code` jumps to `pc`.
pub open spec fn is_jump_target(code: Seq<(u32, Instruction)>, pc: u32) -> bool {
    exists|k: int| 0 <= k < code.len() && spec_jump_target((#[trigger] code[k]).1) == Some(pc)
}

impl BasicBlock {
    /// This is a basic block of `code`, and the block after it, if there is one,
    /// starts at `next`.
    pub open spec fn is_basic_block_of(
        self,
        code: Seq<(u32, Instruction)>,
        next: Option<u32>,
    ) -> bool {
        // It has instructions and starts with the first of them.
        &&& self.code().len() > 0
        &&& self.start_pc == self.code()[0].0
        // Control enters it at the top only ...
        &&& forall|j: int|
            0 < j < self.code().len() ==> !is_jump_target(code, (#[trigger] self.code()[j]).0)
        // ... and leaves it at the end only.
        &&& forall|j: int|
            0 <= j < self.body@.len() ==> !spec_is_terminator(
                (#[trigger] self.body@[j]).instruction,
            )
        &&& match self.terminator {
            Terminator::Instruction(_, instruction) => spec_is_terminator(instruction),
            Terminator::Fallthrough => next matches Some(pc) && is_jump_target(code, pc),
            Terminator::End => next is None,
        }
    }
}

/// Where the block after block number `i` starts, if there is one.
pub open spec fn next_start(blocks: Seq<BasicBlock>, i: int) -> Option<u32> {
    if i + 1 < blocks.len() {
        Some(blocks[i + 1].start_pc)
    } else {
        None
    }
}

impl IrFunction {
    /// The blocks hold `code`, all of it and in order, cut into basic blocks that
    /// are as long as they can be.
    pub open spec fn represents(self, code: Seq<(u32, Instruction)>) -> bool {
        &&& blocks_code(self.blocks@) == code
        &&& forall|i: int|
            0 <= i < self.blocks@.len() ==> (#[trigger] self.blocks@[i]).is_basic_block_of(
                code,
                next_start(self.blocks@, i),
            )
    }

    /// No instruction has a known type.
    pub open spec fn untyped(self) -> bool {
        forall|i: int, j: int|
            0 <= i < self.blocks@.len() && 0 <= j < self.blocks@[i].body@.len() ==> (
            #[trigger] self.blocks@[i].body@[j]).ty == ValueType::Unknown
    }
}

/// The address that an instruction jumps to, if it is a jump.
pub open spec fn spec_jump_target(instruction: Instruction) -> Option<u32> {
    match instruction {
        Instruction::Jump { address } => Some(address),
        Instruction::JumpIfTrue { address, .. } => Some(address),
        Instruction::JumpIfFalse { address, .. } => Some(address),
        Instruction::JumpIfNotLessThan { address, .. } => Some(address),
        Instruction::JumpIfNotLessThanOrEqual { address, .. } => Some(address),
        Instruction::JumpIfNotGreaterThan { address, .. } => Some(address),
        Instruction::JumpIfNotGreaterThanOrEqual { address, .. } => Some(address),
        Instruction::JumpIfNotEqual { address, .. } => Some(address),
        Instruction::JumpIfNullOrUndefined { address, .. } => Some(address),
        Instruction::JumpIfNotUndefined { address, .. } => Some(address),
        Instruction::Case { address, .. } => Some(address),
        Instruction::LogicalAnd { address, .. } => Some(address),
        Instruction::LogicalOr { address, .. } => Some(address),
        Instruction::Coalesce { address, .. } => Some(address),
        _ => None,
    }
}

/// An instruction ends its block if it jumps or returns.
pub open spec fn spec_is_terminator(instruction: Instruction) -> bool {
    spec_jump_target(instruction) is Some || instruction is Return
}

/// Extract the jump target from an instruction, if it has one.
pub fn jump_target(instruction: &Instruction) -> (target: Option<u32>)
    ensures
        target == spec_jump_target(*instruction),
        *instruction matches Instruction::Jump { address } ==> target == Some(address),
        *instruction matches Instruction::JumpIfTrue { address, .. } ==> target == Some(address),
        *instruction matches Instruction::JumpIfFalse { address, .. } ==> target == Some(address),
        *instruction matches Instruction::JumpIfNotLessThan { address, .. } ==> target
            == Some(address),
        *instruction matches Instruction::JumpIfNotLessThanOrEqual { address, .. } ==> target
            == Some(address),
        *instruction matches Instruction::JumpIfNotGreaterThan { address, .. } ==> target
            == Some(address),
        *instruction matches Instruction::JumpIfNotGreaterThanOrEqual { address, .. } ==> target
            == Some(address),
        *instruction matches Instruction::JumpIfNotEqual { address, .. } ==> target
            == Some(address),
        *instruction matches Instruction::JumpIfNullOrUndefined { address, .. } ==> target
            == Some(address),
        *instruction matches Instruction::JumpIfNotUndefined { address, .. } ==> target
            == Some(address),
        *instruction matches Instruction::Case { address, .. } ==> target == Some(address),
        *instruction matches Instruction::LogicalAnd { address, .. } ==> target == Some(address),
        *instruction matches Instruction::LogicalOr { address, .. } ==> target == Some(address),
        *instruction matches Instruction::Coalesce { address, .. } ==> target == Some(address),
{
    match *instruction {
        Instruction::Jump { address }
        | Instruction::JumpIfTrue { address, .. }
        | Instruction::JumpIfFalse { address, .. }
        | Instruction::JumpIfNotLessThan { address, .. }
        | Instruction::JumpIfNotLessThanOrEqual { address, .. }
        | Instruction::JumpIfNotGreaterThan { address, .. }
        | Instruction::JumpIfNotGreaterThanOrEqual { address, .. }
        | Instruction::JumpIfNotEqual { address, .. }
        | Instruction::JumpIfNullOrUndefined { address, .. }
        | Instruction::JumpIfNotUndefined { address, .. }
        | Instruction::Case { address, .. }
        | Instruction::LogicalAnd { address, .. }
        | Instruction::LogicalOr { address, .. }
        | Instruction::Coalesce { address, .. } => Some(address),
        _ => None,
    }
}

/// Check if an instruction is a block terminator.
pub fn is_terminator(instruction: &Instruction) -> (yes: bool)
    ensures
        yes == spec_is_terminator(*instruction),
{
    matches!(
        *instruction,
        Instruction::Jump { .. }
            | Instruction::JumpIfTrue { .. }
            | Instruction::JumpIfFalse { .. }
            | Instruction::JumpIfNotLessThan { .. }
            | Instruction::JumpIfNotLessThanOrEqual { .. }
            | Instruction::JumpIfNotGreaterThan { .. }
            | Instruction::JumpIfNotGreaterThanOrEqual { .. }
            | Instruction::JumpIfNotEqual { .. }
            | Instruction::JumpIfNullOrUndefined { .. }
            | Instruction::JumpIfNotUndefined { .. }
            | Instruction::Case { .. }
            | Instruction::LogicalAnd { .. }
            | Instruction::LogicalOr { .. }
            | Instruction::Coalesce { .. }
            | Instruction::Return
    )
}

/// Collects the addresses that instructions jump to.
fn jump_targets(code: &Vec<(u32, Instruction)>) -> (targets: HashSet<u32>)
    ensures
        forall|pc: u32| #[trigger] targets@.contains(pc) <==> is_jump_target(code@, pc),
{
    let mut targets: HashSet<u32> = HashSet::new();
    let mut k: usize = 0;
    while k < code.len()
        invariant
            k <= code@.len(),
            forall|pc: u32| #[trigger]
                targets@.contains(pc) <==> exists|j: int|
                    0 <= j < k && spec_jump_target((#[trigger] code@[j]).1) == Some(pc),
        decreases code@.len() - k,
    {
        let ghost before = targets@;
        match jump_target(&code[k].1) {
            Some(target) => {
                targets.insert(target);
            },
            None => {},
        }
        proof {
            assert forall|pc: u32| #[trigger] targets@.contains(pc) <==> exists|j: int|
                0 <= j < k + 1 && spec_jump_target((#[trigger] code@[j]).1) == Some(pc) by {
                if before.contains(pc) {
                    let j = choose|j: int|
                        0 <= j < k && spec_jump_target((#[trigger] code@[j]).1) == Some(pc);
                    assert(spec_jump_target(code@[j].1) == Some(pc));
                }
                if spec_jump_target(code@[k as int].1) == Some(pc) {
                    assert(targets@.contains(pc));
                }
            }
        }
        k = k + 1;
    }
    targets
}

/// What holds all the way through [`build_ir`]: `blocks` are done, `body` is the
/// start of the next block, which begins at `start`, and together they hold the
/// first `k` instructions.
#[verifier::opaque]
spec fn partial(
    blocks: Seq<BasicBlock>,
    body: Seq<IrInst>,
    start: u32,
    code: Seq<(u32, Instruction)>,
    k: int,
) -> bool {
    &&& 0 <= k <= code.len()
    &&& blocks_code(blocks) + body_code(body) == code.take(k)
    &&& forall|i: int|
        0 <= i < blocks.len() ==> (#[trigger] blocks[i]).is_basic_block_of(
            code,
            if i + 1 < blocks.len() {
                Some(blocks[i + 1].start_pc)
            } else {
                Some(start)
            },
        )
    &&& forall|i: int, j: int|
        0 <= i < blocks.len() && 0 <= j < blocks[i].body@.len() ==> (
        #[trigger] blocks[i].body@[j]).ty == ValueType::Unknown
    &&& body.len() > 0 ==> start == body[0].pc
    &&& forall|j: int| 0 < j < body.len() ==> !is_jump_target(code, (#[trigger] body[j]).pc)
    &&& forall|j: int|
        0 <= j < body.len() ==> !spec_is_terminator((#[trigger] body[j]).instruction)
            && body[j].ty == ValueType::Unknown
}

/// The state between two instructions. After a terminator there is no body, and
/// `start` is a mark that no instruction starts at.
spec fn between(
    blocks: Seq<BasicBlock>,
    body: Seq<IrInst>,
    start: u32,
    code: Seq<(u32, Instruction)>,
    k: int,
) -> bool {
    &&& partial(blocks, body, start, code, k)
    &&& body.len() == 0 && k > 0 ==> start == u32::MAX && blocks.last().terminator is Instruction
    &&& body.len() == 0 && k == 0 ==> start == 0 && blocks.len() == 0
}

/// The state in which instruction number `k` can be taken: it starts a block or
/// belongs to the pending one.
spec fn ready(
    blocks: Seq<BasicBlock>,
    body: Seq<IrInst>,
    start: u32,
    code: Seq<(u32, Instruction)>,
    k: int,
) -> bool {
    &&& k < code.len()
    &&& partial(blocks, body, start, code, k)
    &&& if body.len() == 0 {
        start == code[k].0
    } else {
        !is_jump_target(code, code[k].0)
    }
}

/// At the beginning there is nothing, and after the last instruction everything.
proof fn partial_ends(blocks: Seq<BasicBlock>, start: u32, code: Seq<(u32, Instruction)>)
    ensures
        partial(seq![], seq![], start, code, 0),
        partial(blocks, seq![], start, code, code.len() as int) ==> blocks_code(blocks) == code
            && forall|i: int|
            0 <= i < blocks.len() ==> (#[trigger] blocks[i]).is_basic_block_of(
                code,
                if i + 1 < blocks.len() {
                    Some(blocks[i + 1].start_pc)
                } else {
                    Some(start)
                },
            ),
{
    reveal(partial);
    assert(blocks_code(seq![]) + body_code(seq![]) =~= code.take(0));
    assert(blocks_code(blocks) + body_code(seq![]) =~= blocks_code(blocks));
    assert(code.take(code.len() as int) =~= code);
}

/// What has been built so far is without types.
proof fn partial_is_untyped(
    blocks: Seq<BasicBlock>,
    body: Seq<IrInst>,
    start: u32,
    code: Seq<(u32, Instruction)>,
    k: int,
)
    requires
        partial(blocks, body, start, code, k),
    ensures
        forall|i: int, j: int|
            0 <= i < blocks.len() && 0 <= j < blocks[i].body@.len() ==> (
            #[trigger] blocks[i].body@[j]).ty == ValueType::Unknown,
        forall|j: int| 0 <= j < body.len() ==> (#[trigger] body[j]).ty == ValueType::Unknown,
{
    reveal(partial);
}

/// A pending block starts at one of the instructions.
proof fn pending_start(
    blocks: Seq<BasicBlock>,
    body: Seq<IrInst>,
    start: u32,
    code: Seq<(u32, Instruction)>,
    k: int,
)
    requires
        partial(blocks, body, start, code, k),
        body.len() > 0,
    ensures
        exists|j: int| 0 <= j < code.len() && start == (#[trigger] code[j]).0,
{
    assert(start == body[0].pc && 0 <= k <= code.len() && blocks_code(blocks) + body_code(body)
        == code.take(k)) by {
        reveal(partial);
    }
    let n = blocks_code(blocks).len() as int;
    assert(body_code(body).len() == body.len());
    assert(code.take(k).len() == n + body.len());
    assert(code.take(k)[n] == body_code(body)[0]);
    assert(code[n].0 == start);
}

/// After a terminator the next block may start anywhere.
proof fn start_afresh(
    blocks: Seq<BasicBlock>,
    old_start: u32,
    start: u32,
    code: Seq<(u32, Instruction)>,
    k: int,
)
    requires
        partial(blocks, seq![], old_start, code, k),
        blocks.last().terminator is Instruction,
    ensures
        partial(blocks, seq![], start, code, k),
{
    reveal(partial);
}

/// Closes the pending block before a jump target.
proof fn close_before_target(
    blocks: Seq<BasicBlock>,
    block: BasicBlock,
    code: Seq<(u32, Instruction)>,
    k: int,
)
    requires
        partial(blocks, block.body@, block.start_pc, code, k),
        block.body@.len() > 0,
        block.terminator is Fallthrough,
        k < code.len(),
        is_jump_target(code, code[k].0),
    ensures
        ready(blocks.push(block), seq![], code[k].0, code, k),
{
    reveal(partial);
    let more = blocks.push(block);
    blocks_code_push(blocks, block);
    assert(block.code() == body_code(block.body@));
    assert(blocks_code(more) + body_code(seq![]) =~= code.take(k));
    assert forall|j: int| 0 < j < block.code().len() implies !is_jump_target(
        code,
        (#[trigger] block.code()[j]).0,
    ) by {
        assert(block.code()[j].0 == block.body@[j].pc);
    }
    assert forall|i: int| 0 <= i < more.len() implies (#[trigger] more[i]).is_basic_block_of(
        code,
        if i + 1 < more.len() {
            Some(more[i + 1].start_pc)
        } else {
            Some(code[k].0)
        },
    ) by {
        if i < blocks.len() {
            assert(more[i] == blocks[i]);
        }
    }
    assert forall|i: int, j: int|
        0 <= i < more.len() && 0 <= j < more[i].body@.len() implies (
    #[trigger] more[i].body@[j]).ty == ValueType::Unknown by {
        if i < blocks.len() {
            assert(more[i] == blocks[i]);
            assert(blocks[i].body@[j].ty == ValueType::Unknown);
        }
    }
}

/// Takes a terminator, which ends its block.
proof fn take_terminator(
    blocks: Seq<BasicBlock>,
    block: BasicBlock,
    code: Seq<(u32, Instruction)>,
    k: int,
)
    requires
        ready(blocks, block.body@, block.start_pc, code, k),
        block.terminator == Terminator::Instruction(code[k].0, code[k].1),
        spec_is_terminator(code[k].1),
    ensures
        between(blocks.push(block), seq![], u32::MAX, code, k + 1),
{
    reveal(partial);
    let more = blocks.push(block);
    blocks_code_push(blocks, block);
    assert(block.code() == body_code(block.body@).push(code[k]));
    assert(code.take(k + 1) =~= code.take(k).push(code[k]));
    assert(blocks_code(more) + body_code(seq![]) =~= code.take(k + 1));
    assert forall|j: int| 0 < j < block.code().len() implies !is_jump_target(
        code,
        (#[trigger] block.code()[j]).0,
    ) by {
        if j < block.body@.len() {
            assert(block.code()[j].0 == block.body@[j].pc);
        }
    }
    assert forall|i: int| 0 <= i < more.len() implies (#[trigger] more[i]).is_basic_block_of(
        code,
        if i + 1 < more.len() {
            Some(more[i + 1].start_pc)
        } else {
            Some(u32::MAX)
        },
    ) by {
        if i < blocks.len() {
            assert(more[i] == blocks[i]);
        } else if block.body@.len() > 0 {
            assert(block.code()[0].0 == block.body@[0].pc);
        }
    }
    assert forall|i: int, j: int|
        0 <= i < more.len() && 0 <= j < more[i].body@.len() implies (
    #[trigger] more[i].body@[j]).ty == ValueType::Unknown by {
        if i < blocks.len() {
            assert(more[i] == blocks[i]);
            assert(blocks[i].body@[j].ty == ValueType::Unknown);
        }
    }
}

/// Takes any other instruction, which joins the pending block.
proof fn take_instruction(
    blocks: Seq<BasicBlock>,
    body: Seq<IrInst>,
    start: u32,
    code: Seq<(u32, Instruction)>,
    k: int,
)
    requires
        ready(blocks, body, start, code, k),
        !spec_is_terminator(code[k].1),
    ensures
        between(
            blocks,
            body.push(
                IrInst { pc: code[k].0, instruction: code[k].1, ty: ValueType::Unknown },
            ),
            start,
            code,
            k + 1,
        ),
{
    reveal(partial);
    let inst = IrInst { pc: code[k].0, instruction: code[k].1, ty: ValueType::Unknown };
    assert(body_code(body.push(inst)) =~= body_code(body).push(code[k]));
    assert(code.take(k + 1) =~= code.take(k).push(code[k]));
    assert(blocks_code(blocks) + body_code(body.push(inst)) =~= code.take(k + 1));
}

/// Closes the last block at the end of the code.
proof fn close_at_end(
    blocks: Seq<BasicBlock>,
    block: BasicBlock,
    code: Seq<(u32, Instruction)>,
)
    requires
        partial(blocks, block.body@, block.start_pc, code, code.len() as int),
        block.body@.len() > 0,
        block.terminator is End,
    ensures
        blocks_code(blocks.push(block)) == code,
        forall|i: int|
            0 <= i <= blocks.len() ==> (#[trigger] blocks.push(block)[i]).is_basic_block_of(
                code,
                next_start(blocks.push(block), i),
            ),
{
    reveal(partial);
    let more = blocks.push(block);
    blocks_code_push(blocks, block);
    assert(block.code() == body_code(block.body@));
    assert(code.take(code.len() as int) =~= code);
    assert forall|j: int| 0 < j < block.code().len() implies !is_jump_target(
        code,
        (#[trigger] block.code()[j]).0,
    ) by {
        assert(block.code()[j].0 == block.body@[j].pc);
    }
    assert forall|i: int| 0 <= i <= blocks.len() implies (#[trigger] more[i]).is_basic_block_of(
        code,
        next_start(more, i),
    ) by {
        if i < blocks.len() {
            assert(more[i] == blocks[i]);
        }
    }
}

/// Appending a block appends its instructions.
proof fn blocks_code_push(blocks: Seq<BasicBlock>, block: BasicBlock)
    ensures
        blocks_code(blocks.push(block)) == blocks_code(blocks) + block.code(),
{
    assert(blocks.push(block).drop_last() =~= blocks);
}

/// Build the IR from bytecode.
///
/// Splits the bytecode into basic blocks at jump targets. Instructions that
/// are terminators (jumps, branches, return) end their block.
pub fn build_ir(bytecode: &Bytecode) -> (ir: IrFunction)
    requires
        bytecode.wf(),
    ensures
        ir.represents(located(bytecode.program())),
        ir.untyped(),
        forall|i: int, j: int|
            0 <= i < ir.blocks@.len() && 0 <= j < ir.blocks@[i].body@.len() ==> (
            #[trigger] ir.blocks@[i].body@[j]).ty == ValueType::Unknown,
{
    let code = bytecode.instructions();
    // Phase 1: find all jump targets.
    let targets = jump_targets(&code);

    // Phase 2: build blocks.
    let mut blocks: Vec<BasicBlock> = Vec::new();
    let mut body: Vec<IrInst> = Vec::new();
    let mut block_start_pc: u32 = 0;

    let mut k: usize = 0;
    proof {
        partial_ends(seq![], 0, code@);
        assert(blocks@ =~= seq![]);
        assert(body@ =~= seq![]);
        assert(code@.len() > 0 ==> code@[0].0 == 0) by {
            assert(bytecode.program().take(0) =~= seq![]);
        }
    }
    while k < code.len()
        invariant
            k <= code@.len(),
            forall|j: int| 0 <= j < code@.len() ==> (#[trigger] code@[j]).0 < u32::MAX,
            forall|pc: u32| #[trigger] targets@.contains(pc) <==> is_jump_target(code@, pc),
            code@.len() > 0 ==> code@[0].0 == 0,
            between(blocks@, body@, block_start_pc, code@, k as int),
        decreases code@.len() - k,
    {
        let pc: u32 = code[k].0;
        let instruction: Instruction = code[k].1;
        let ghost blocks0 = blocks@;
        let ghost body0 = body@;
        proof {
            if body0.len() > 0 {
                pending_start(blocks0, body0, block_start_pc, code@, k as int);
            } else {
                assert(body0 =~= seq![]);
                if k > 0 {
                    start_afresh(blocks0, block_start_pc, pc, code@, k as int);
                }
            }
        }

        // Start a new block if this is a jump target or after a terminator.
        if block_start_pc == u32::MAX {
            // The previous instruction was a terminator. Start fresh.
            block_start_pc = pc;
        } else if targets.contains(&pc) && (pc != block_start_pc || !body.is_empty()) {
            // This is a jump target and there is a pending block: close it.
            let mut full: Vec<IrInst> = Vec::new();
            std::mem::swap(&mut full, &mut body);
            blocks.push(
                BasicBlock {
                    start_pc: block_start_pc,
                    body: full,
                    terminator: Terminator::Fallthrough,
                },
            );
            block_start_pc = pc;
            proof {
                close_before_target(blocks0, blocks@.last(), code@, k as int);
                assert(body@ =~= seq![]);
                assert(blocks@ =~= blocks0.push(blocks@.last()));
            }
        }
        assert(ready(blocks@, body@, block_start_pc, code@, k as int));
        let ghost blocks1 = blocks@;
        let ghost body1 = body@;

        // Check if this instruction is a terminator.
        if is_terminator(&instruction) {
            let mut full: Vec<IrInst> = Vec::new();
            std::mem::swap(&mut full, &mut body);
            blocks.push(
                BasicBlock {
                    start_pc: block_start_pc,
                    body: full,
                    terminator: Terminator::Instruction(pc, instruction),
                },
            );
            proof {
                take_terminator(blocks1, blocks@.last(), code@, k as int);
                assert(body@ =~= seq![]);
                assert(blocks@ =~= blocks1.push(blocks@.last()));
            }
            block_start_pc = u32::MAX;
        } else {
            proof {
                take_instruction(blocks1, body1, block_start_pc, code@, k as int);
            }
            body.push(IrInst { pc, instruction, ty: ValueType::Unknown });
        }
        k = k + 1;
    }
    let ghost done = blocks@;

    // Close the last block if there are remaining instructions.
    if !body.is_empty() {
        blocks.push(
            BasicBlock { start_pc: block_start_pc, body, terminator: Terminator::End },
        );
        proof {
            close_at_end(done, blocks@.last(), code@);
            partial_is_untyped(done, blocks@.last().body@, block_start_pc, code@, k as int);
            assert(blocks@ =~= done.push(blocks@.last()));
        }
    } else {
        proof {
            assert(body@ =~= seq![]);
            partial_ends(done, block_start_pc, code@);
            partial_is_untyped(done, body@, block_start_pc, code@, k as int);
        }
    }
    IrFunction { blocks }
}

/// How many instructions the blocks before block number `i` hold.
pub open spec fn block_offset(blocks: Seq<BasicBlock>, i: int) -> int {
    blocks_code(blocks.take(i)).len() as int
}

/// The instructions of block number `i` follow those of the blocks before it.
proof fn block_is_slice(blocks: Seq<BasicBlock>, i: int)
    requires
        0 <= i < blocks.len(),
    ensures
        block_offset(blocks, i + 1) == block_offset(blocks, i) + blocks[i].code().len(),
        block_offset(blocks, i + 1) <= blocks_code(blocks).len(),
        blocks_code(blocks).subrange(block_offset(blocks, i), block_offset(blocks, i + 1))
            == blocks[i].code(),
    decreases blocks.len(),
{
    assert(blocks.take(i + 1).drop_last() =~= blocks.take(i));
    assert(blocks.take(i + 1).last() == blocks[i]);
    let from = block_offset(blocks, i);
    let to = block_offset(blocks, i + 1);
    if i + 1 < blocks.len() {
        let shorter = blocks.drop_last();
        block_is_slice(shorter, i);
        assert(shorter.take(i) =~= blocks.take(i));
        assert(shorter.take(i + 1) =~= blocks.take(i + 1));
        assert(blocks_code(blocks).subrange(from, to) =~= blocks_code(shorter).subrange(from, to));
    } else {
        assert(blocks.take(i) =~= blocks.drop_last());
        assert(blocks.take(i + 1) =~= blocks);
        assert(blocks_code(blocks).subrange(from, to) =~= blocks[i].code());
    }
}

/// Every instruction lies in a block.
proof fn block_holding(blocks: Seq<BasicBlock>, k: int) -> (i: int)
    requires
        0 <= k < blocks_code(blocks).len(),
    ensures
        0 <= i < blocks.len(),
        block_offset(blocks, i) <= k < block_offset(blocks, i + 1),
    decreases blocks.len(),
{
    let last = blocks.len() - 1;
    let shorter = blocks.drop_last();
    assert(blocks.take(last) =~= shorter);
    assert(blocks.take(last + 1) =~= blocks);
    if k < blocks_code(shorter).len() {
        let i = block_holding(shorter, k);
        assert(shorter.take(i) =~= blocks.take(i));
        assert(shorter.take(i + 1) =~= blocks.take(i + 1));
        i
    } else {
        last
    }
}

/// A jump never lands inside a block: every instruction that some instruction
/// jumps to is the first of its block.
pub proof fn jump_targets_start_blocks(ir: IrFunction, code: Seq<(u32, Instruction)>, k: int)
    requires
        ir.represents(code),
        0 <= k < code.len(),
        is_jump_target(code, code[k].0),
    ensures
        exists|i: int|
            0 <= i < ir.blocks@.len() && #[trigger] block_offset(ir.blocks@, i) == k
                && ir.blocks@[i].start_pc == code[k].0,
{
    let i = block_holding(ir.blocks@, k);
    block_is_slice(ir.blocks@, i);
    let from = block_offset(ir.blocks@, i);
    let block = ir.blocks@[i];
    assert(block.is_basic_block_of(code, next_start(ir.blocks@, i)));
    assert(block.code()[k - from] == code[k]);
    assert(block_offset(ir.blocks@, i) == k);
}

/// Two representations of the same code have as many blocks in front of every
/// block, as long as both have one there.
proof fn offsets_agree(a: IrFunction, b: IrFunction, code: Seq<(u32, Instruction)>, i: int)
    requires
        a.represents(code),
        b.represents(code),
        0 <= i <= a.blocks@.len(),
        i <= b.blocks@.len(),
    ensures
        block_offset(a.blocks@, i) == block_offset(b.blocks@, i),
    decreases i,
{
    if i > 0 {
        offsets_agree(a, b, code, i - 1);
        no_shorter_block(a, b, code, i - 1);
        no_shorter_block(b, a, code, i - 1);
        block_is_slice(a.blocks@, i - 1);
        block_is_slice(b.blocks@, i - 1);
    } else {
        assert(a.blocks@.take(0) =~= b.blocks@.take(0));
    }
}

/// Where two blocks of the same code start together, the first is not the shorter one.
proof fn no_shorter_block(a: IrFunction, b: IrFunction, code: Seq<(u32, Instruction)>, i: int)
    requires
        a.represents(code),
        b.represents(code),
        0 <= i < a.blocks@.len(),
        i < b.blocks@.len(),
        block_offset(a.blocks@, i) == block_offset(b.blocks@, i),
    ensures
        a.blocks@[i].code().len() >= b.blocks@[i].code().len(),
{
    block_is_slice(a.blocks@, i);
    block_is_slice(b.blocks@, i);
    let p = a.blocks@[i];
    let q = b.blocks@[i];
    assert(p.is_basic_block_of(code, next_start(a.blocks@, i)));
    assert(q.is_basic_block_of(code, next_start(b.blocks@, i)));
    let from = block_offset(a.blocks@, i);
    let n = p.code().len() as int;
    if n < q.code().len() {
        // The instruction after `p` lies inside `q`.
        assert(q.code()[n] == code[from + n]);
        match p.terminator {
            Terminator::Instruction(pc, instruction) => {
                // It would come after a terminator.
                assert(p.code()[n - 1] == code[from + n - 1]);
                assert(q.code()[n - 1] == code[from + n - 1]);
                assert(p.code()[n - 1] == (pc, instruction));
                assert(n - 1 < q.body@.len());
                assert(q.body@[n - 1].instruction == instruction);
            },
            Terminator::Fallthrough => {
                // It would be a jump target.
                let next = a.blocks@[i + 1];
                block_is_slice(a.blocks@, i + 1);
                assert(next.is_basic_block_of(code, next_start(a.blocks@, i + 1)));
                assert(next.code()[0] == code[from + n]);
            },
            Terminator::End => {
                // There is none.
                assert(a.blocks@.take(i + 1) =~= a.blocks@);
            },
        }
    }
}

/// Code can be cut into basic blocks in one way only.
pub proof fn representation_is_unique(
    a: IrFunction,
    b: IrFunction,
    code: Seq<(u32, Instruction)>,
)
    requires
        a.represents(code),
        b.represents(code),
    ensures
        a.blocks@.len() == b.blocks@.len(),
        forall|i: int|
            0 <= i < a.blocks@.len() ==> (#[trigger] a.blocks@[i]).code() == b.blocks@[i].code()
                && a.blocks@[i].start_pc == b.blocks@[i].start_pc && a.blocks@[i].terminator
                == b.blocks@[i].terminator,
{
    no_more_blocks(a, b, code);
    no_more_blocks(b, a, code);
    assert forall|i: int| 0 <= i < a.blocks@.len() implies (#[trigger] a.blocks@[i]).code()
        == b.blocks@[i].code() && a.blocks@[i].start_pc == b.blocks@[i].start_pc
        && a.blocks@[i].terminator == b.blocks@[i].terminator by {
        offsets_agree(a, b, code, i);
        offsets_agree(a, b, code, i + 1);
        block_is_slice(a.blocks@, i);
        block_is_slice(b.blocks@, i);
        let p = a.blocks@[i];
        let q = b.blocks@[i];
        assert(p.is_basic_block_of(code, next_start(a.blocks@, i)));
        assert(q.is_basic_block_of(code, next_start(b.blocks@, i)));
        let n = p.code().len() as int;
        assert(p.code()[n - 1] == q.code()[n - 1]);
        last_instruction(p, code, next_start(a.blocks@, i));
        last_instruction(q, code, next_start(b.blocks@, i));
    }
}

/// A block ends with an instruction terminator exactly if its last instruction is one.
proof fn last_instruction(block: BasicBlock, code: Seq<(u32, Instruction)>, next: Option<u32>)
    requires
        block.is_basic_block_of(code, next),
    ensures
        block.terminator is Instruction <==> spec_is_terminator(block.code().last().1),
        block.terminator is Instruction ==> block.terminator == Terminator::Instruction(
            block.code().last().0,
            block.code().last().1,
        ),
{
    let n = block.code().len() as int;
    if !(block.terminator is Instruction) {
        assert(block.code()[n - 1].1 == block.body@[n - 1].instruction);
    }
}

proof fn no_more_blocks(a: IrFunction, b: IrFunction, code: Seq<(u32, Instruction)>)
    requires
        a.represents(code),
        b.represents(code),
    ensures
        a.blocks@.len() <= b.blocks@.len(),
{
    let n = b.blocks@.len() as int;
    if n < a.blocks@.len() {
        offsets_agree(a, b, code, n);
        assert(b.blocks@.take(n) =~= b.blocks@);
        block_is_slice(a.blocks@, n);
        assert(a.blocks@[n].is_basic_block_of(code, next_start(a.blocks@, n)));
    }
}

/// Every block of a function starts within its bytecode.
pub proof fn blocks_start_within_bytecode(bytecode: Bytecode, ir: IrFunction, i: int)
    requires
        bytecode.wf(),
        ir.represents(located(bytecode.program())),
        0 <= i < ir.blocks@.len(),
    ensures
        ir.blocks@[i].start_pc < bytecode.bytes@.len(),
{
    let program = bytecode.program();
    let code = located(program);
    assert(bytecode.encodes(program));
    assert(ir.blocks@[i].is_basic_block_of(code, next_start(ir.blocks@, i)));
    block_is_slice(ir.blocks@, i);
    let k = block_offset(ir.blocks@, i);
    assert(ir.blocks@[i].code()[0] == code[k]);
    pc_bounds(program, k);
}

/// Code without a jump or a return is one block, which runs to the end.
pub proof fn straight_line_code_is_one_block(ir: IrFunction, code: Seq<(u32, Instruction)>)
    requires
        ir.represents(code),
        code.len() > 0,
        forall|k: int| 0 <= k < code.len() ==> !spec_is_terminator((#[trigger] code[k]).1),
    ensures
        ir.blocks@.len() == 1,
        ir.blocks@[0].code() == code,
        ir.blocks@[0].terminator is End,
{
    let blocks = ir.blocks@;
    assert forall|i: int| 0 <= i < blocks.len() implies (#[trigger] blocks[i]).terminator is End by {
        block_is_slice(blocks, i);
        assert(blocks[i].is_basic_block_of(code, next_start(blocks, i)));
        last_instruction(blocks[i], code, next_start(blocks, i));
        let n = blocks[i].code().len() as int;
        assert(blocks[i].code()[n - 1] == code[block_offset(blocks, i) + n - 1]);
        if blocks[i].terminator is Fallthrough {
            let pc = blocks[i + 1].start_pc;
            assert(is_jump_target(code, pc));
            let k = choose|k: int|
                0 <= k < code.len() && spec_jump_target((#[trigger] code[k]).1) == Some(pc);
            assert(spec_is_terminator(code[k].1));
        }
    }
    if blocks.len() == 0 {
        assert(blocks_code(blocks).len() == 0);
    } else {
        assert(blocks[0].is_basic_block_of(code, next_start(blocks, 0)));
        assert(blocks.drop_last() =~= seq![]);
        assert(blocks_code(seq![]) + blocks[0].code() =~= blocks[0].code());
    }
}

/// Every instruction that names an address has it for its jump target, whatever its other
/// operands are.
pub proof fn address_operands_are_jump_targets(
    address: u32,
    value: u32,
    lhs: u32,
    rhs: u32,
    condition: u32,
)
    ensures
        spec_jump_target(Instruction::Jump { address }) == Some(address),
        spec_jump_target(Instruction::JumpIfTrue { address, value }) == Some(address),
        spec_jump_target(Instruction::JumpIfFalse { address, value }) == Some(address),
        spec_jump_target(Instruction::JumpIfNotLessThan { address, lhs, rhs }) == Some(address),
        spec_jump_target(
            Instruction::JumpIfNotLessThanOrEqual { address, lhs, rhs },
        ) == Some(address),
        spec_jump_target(Instruction::JumpIfNotGreaterThan { address, lhs, rhs }) == Some(address),
        spec_jump_target(
            Instruction::JumpIfNotGreaterThanOrEqual { address, lhs, rhs },
        ) == Some(address),
        spec_jump_target(Instruction::JumpIfNotEqual { address, lhs, rhs }) == Some(address),
        spec_jump_target(Instruction::JumpIfNullOrUndefined { address, value }) == Some(address),
        spec_jump_target(Instruction::JumpIfNotUndefined { address, value }) == Some(address),
        spec_jump_target(Instruction::Case { address, value, condition }) == Some(address),
        spec_jump_target(Instruction::LogicalAnd { address, value }) == Some(address),
        spec_jump_target(Instruction::LogicalOr { address, value }) == Some(address),
        spec_jump_target(Instruction::Coalesce { address, value }) == Some(address),
{
}

/// Exactly the instructions that name an address, and the return, end their blocks.
pub proof fn jumps_and_returns_are_terminators(instruction: Instruction)
    ensures
        spec_is_terminator(instruction) <==> {
            ||| instruction is Jump
            ||| instruction is JumpIfTrue
            ||| instruction is JumpIfFalse
            ||| instruction is JumpIfNotLessThan
            ||| instruction is JumpIfNotLessThanOrEqual
            ||| instruction is JumpIfNotGreaterThan
            ||| instruction is JumpIfNotGreaterThanOrEqual
            ||| instruction is JumpIfNotEqual
            ||| instruction is JumpIfNullOrUndefined
            ||| instruction is JumpIfNotUndefined
            ||| instruction is Case
            ||| instruction is LogicalAnd
            ||| instruction is LogicalOr
            ||| instruction is Coalesce
            ||| instruction is Return
        },
        spec_jump_target(instruction) is Some <==> spec_is_terminator(instruction) && !(
        instruction is Return),
{
}

/// Where an instruction jumps to can be read off its encoding. The operations with bytes from
/// 50 to 64, but for 52, which is `LogicalNot`, have an address, and it is their first word.
pub proof fn jump_target_is_read_off_encoding(instruction: Instruction)
    requires
        instruction.wf(),
    ensures
        ({
            let bytes = instruction.encoding();
            if 50 <= bytes[0] <= 64 && bytes[0] != 52 {
                &&& bytes.len() >= 5
                &&& spec_jump_target(instruction) == Some(le_value(bytes.subrange(1, 5)) as u32)
                &&& le_value(bytes.subrange(1, 5)) <= u32::MAX
                &&& spec_is_terminator(instruction)
            } else {
                &&& spec_jump_target(instruction) is None
                &&& spec_is_terminator(instruction) <==> bytes[0] == 109
            }
        }),
{
    encoding_starts_with_opcode(instruction);
    if spec_jump_target(instruction) is Some {
        assert(instruction.words().len() > 0);
        words_are_read_off_encoding(instruction, 0);
        assert(instruction.words()[0] == spec_jump_target(instruction)->0);
    }
}

/// An instruction with an address, or a return, is the last one of its block, and the next
/// instruction starts another.
pub proof fn jumps_end_blocks(ir: IrFunction, code: Seq<(u32, Instruction)>, k: int)
    requires
        ir.represents(code),
        0 <= k < code.len(),
        code[k].1.wf(),
        ({
            let byte = code[k].1.encoding()[0];
            50 <= byte <= 64 && byte != 52 || byte == 109
        }),
    ensures
        exists|i: int|
            0 <= i < ir.blocks@.len() && #[trigger] block_offset(ir.blocks@, i + 1) == k + 1
                && ir.blocks@[i].terminator == Terminator::Instruction(code[k].0, code[k].1),
{
    jump_target_is_read_off_encoding(code[k].1);
    let i = block_holding(ir.blocks@, k);
    block_is_slice(ir.blocks@, i);
    let from = block_offset(ir.blocks@, i);
    let block = ir.blocks@[i];
    assert(block.is_basic_block_of(code, next_start(ir.blocks@, i)));
    assert(block.code()[k - from] == code[k]);
    if k - from < block.body@.len() {
        assert(block.body@[k - from].instruction == code[k].1);
    }
    assert(block_offset(ir.blocks@, i + 1) == k + 1);
}

/// An instruction at an address that another one names is the first of its block.
pub proof fn named_addresses_start_blocks(
    ir: IrFunction,
    code: Seq<(u32, Instruction)>,
    j: int,
    k: int,
)
    requires
        ir.represents(code),
        0 <= j < code.len(),
        0 <= k < code.len(),
        code[j].1.wf(),
        ({
            let bytes = code[j].1.encoding();
            50 <= bytes[0] <= 64 && bytes[0] != 52 && le_value(bytes.subrange(1, 5)) == code[k].0
        }),
    ensures
        exists|i: int|
            0 <= i < ir.blocks@.len() && #[trigger] block_offset(ir.blocks@, i) == k
                && ir.blocks@[i].start_pc == code[k].0,
{
    jump_target_is_read_off_encoding(code[j].1);
    assert(is_jump_target(code, code[k].0));
    jump_targets_start_blocks(ir, code, k);
}

/// Where a block ends has a reason: it ends with a jump or a return, the code ends, or the next
/// instruction is one that is jumped to.
pub proof fn blocks_end_for_a_reason(ir: IrFunction, code: Seq<(u32, Instruction)>, i: int)
    requires
        ir.represents(code),
        0 <= i < ir.blocks@.len(),
    ensures
        ({
            let end = block_offset(ir.blocks@, i + 1);
            &&& 0 <= block_offset(ir.blocks@, i) < end <= code.len()
            &&& ir.blocks@[i].start_pc == code[block_offset(ir.blocks@, i)].0
            &&& match ir.blocks@[i].terminator {
                Terminator::Instruction(pc, instruction) => {
                    &&& code[end - 1] == (pc, instruction)
                    &&& spec_jump_target(instruction) is Some || instruction is Return
                    &&& ir.blocks@[i].body@.len() == end - 1 - block_offset(ir.blocks@, i)
                },
                Terminator::Fallthrough => {
                    &&& end < code.len()
                    &&& exists|j: int|
                        0 <= j < code.len() && spec_jump_target((#[trigger] code[j]).1) == Some(
                            code[end].0,
                        )
                    &&& ir.blocks@[i].body@.len() == end - block_offset(ir.blocks@, i)
                },
                Terminator::End => {
                    &&& end == code.len()
                    &&& ir.blocks@[i].body@.len() == end - block_offset(ir.blocks@, i)
                },
            }
            &&& forall|j: int|
                0 <= j < ir.blocks@[i].body@.len() ==> ((#[trigger] ir.blocks@[i].body@[j]).pc,
                ir.blocks@[i].body@[j].instruction) == code[block_offset(ir.blocks@, i) + j]
        }),
{
    let blocks = ir.blocks@;
    let from = block_offset(blocks, i);
    let end = block_offset(blocks, i + 1);
    let block = blocks[i];
    block_is_slice(blocks, i);
    assert(block.is_basic_block_of(code, next_start(blocks, i)));
    assert(block.code()[0] == code[from]);
    assert forall|j: int| 0 <= j < block.body@.len() implies ((#[trigger] block.body@[j]).pc,
    block.body@[j].instruction) == code[from + j] by {
        assert(block.code()[j] == code[from + j]);
        assert(block.code()[j] == body_code(block.body@)[j]);
    }
    let n = block.code().len() as int;
    assert(block.code()[n - 1] == code[end - 1]);
    match block.terminator {
        Terminator::Fallthrough => {
            block_is_slice(blocks, i + 1);
            assert(blocks[i + 1].is_basic_block_of(code, next_start(blocks, i + 1)));
            assert(blocks[i + 1].code()[0] == code[end]);
            assert(is_jump_target(code, code[end].0));
        },
        Terminator::End => {
            assert(blocks.take(i + 1) =~= blocks);
        },
        _ => {},
    }
}

} // verus!
