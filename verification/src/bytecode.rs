//! Bytecode: the encoded body of a function.

use vstd::prelude::*;

use crate::instruction::{encoding_is_prefix_free, encoding_starts_with_opcode, Instruction};

verus! {

/// The encodings of instructions, one after the other.
pub open spec fn program_encoding(program: Seq<Instruction>) -> Seq<u8>
    decreases program.len(),
{
    if program.len() == 0 {
        seq![]
    } else {
        program_encoding(program.drop_last()) + program.last().encoding()
    }
}

/// The position in bytes of instruction number `k` of a program, which is where
/// the first `k` instructions end.
pub open spec fn pc_of(program: Seq<Instruction>, k: int) -> int {
    program_encoding(program.take(k)).len() as int
}

/// The instructions of a program, each with its position.
pub open spec fn located(program: Seq<Instruction>) -> Seq<(u32, Instruction)> {
    Seq::new(program.len(), |k: int| (pc_of(program, k) as u32, program[k]))
}

/// The encoded instructions of one function.
pub struct Bytecode {
    pub bytes: Vec<u8>,
}

impl Bytecode {
    /// The bytes are the encoding of `program`.
    pub open spec fn encodes(&self, program: Seq<Instruction>) -> bool {
        &&& forall|k: int| 0 <= k < program.len() ==> (#[trigger] program[k]).wf()
        &&& self.bytes@ == program_encoding(program)
    }

    /// The bytes are instructions from the first to the last, and short enough
    /// for every position to be a 32-bit address.
    pub open spec fn wf(&self) -> bool {
        &&& self.bytes@.len() <= u32::MAX
        &&& exists|program: Seq<Instruction>| self.encodes(program)
    }

    /// The instructions that the bytes encode. There is only one such sequence.
    pub open spec fn program(&self) -> Seq<Instruction> {
        choose|program: Seq<Instruction>| self.encodes(program)
    }

    /// Tells whether the bytes are instructions from the first to the last, and
    /// short enough for 32-bit addresses.
    pub fn is_well_formed(&self) -> (yes: bool)
        ensures
            yes == self.wf(),
    {
        if self.bytes.len() > u32::MAX as usize {
            return false;
        }
        let decoded = self.decode();
        decoded.is_some()
    }

    /// Returns the instructions in order, each with its position.
    pub fn instructions(&self) -> (instructions: Vec<(u32, Instruction)>)
        requires
            self.wf(),
        ensures
            instructions@ == located(self.program()),
            self.encodes(self.program()),
            forall|k: int|
                0 <= k < instructions@.len() ==> (#[trigger] instructions@[k]).0
                    < self.bytes@.len(),
    {
        let decoded = self.decode();
        match decoded {
            Some(instructions) => {
                proof {
                    let program = instructions@.map_values(|i: (u32, Instruction)| i.1);
                    program_is_unique(*self, program, self.program());
                    assert forall|k: int| 0 <= k < instructions@.len() implies (
                    #[trigger] instructions@[k]).0 < self.bytes@.len() by {
                        pc_bounds(program, k);
                    }
                }
                instructions
            },
            None => {
                assert(self.encodes(self.program()));
                Vec::new()
            },
        }
    }

    /// Decodes the bytes from front to back.
    fn decode(&self) -> (decoded: Option<Vec<(u32, Instruction)>>)
        requires
            self.bytes@.len() <= u32::MAX,
        ensures
            match decoded {
                Some(instructions) => {
                    let program = instructions@.map_values(|i: (u32, Instruction)| i.1);
                    &&& self.encodes(program)
                    &&& instructions@ == located(program)
                },
                None => forall|program: Seq<Instruction>| !self.encodes(program),
            },
    {
        let mut instructions: Vec<(u32, Instruction)> = Vec::new();
        let ghost mut program: Seq<Instruction> = seq![];
        let mut pc: usize = 0;
        assert(self.bytes@.take(0) =~= program_encoding(program));
        assert(instructions@ =~= located(program));
        while pc < self.bytes.len()
            invariant
                self.bytes@.len() <= u32::MAX,
                pc <= self.bytes@.len(),
                self.bytes@.take(pc as int) == program_encoding(program),
                forall|k: int| 0 <= k < program.len() ==> (#[trigger] program[k]).wf(),
                instructions@ == located(program),
                instructions@.len() == program.len(),
            decreases self.bytes@.len() - pc,
        {
            match Instruction::decode(&self.bytes, pc) {
                Some((instruction, next)) => {
                    instructions.push((pc as u32, instruction));
                    proof {
                        let longer = program.push(instruction);
                        assert(longer.drop_last() =~= program);
                        assert(self.bytes@.take(next as int) =~= self.bytes@.take(pc as int)
                            + self.bytes@.subrange(pc as int, next as int));
                        assert(self.bytes@.take(next as int) =~= program_encoding(longer));
                        assert(instructions@ =~= located(longer)) by {
                            assert forall|k: int| 0 <= k < longer.len() implies #[trigger] located(
                                longer,
                            )[k] == instructions@[k] by {
                                assert(longer.take(k) =~= program.take(k));
                                if k < program.len() {
                                    assert(located(program)[k] == instructions@[k]);
                                } else {
                                    assert(program.take(k) =~= program);
                                }
                            }
                        }
                        program = longer;
                    }
                    pc = next;
                },
                None => {
                    proof {
                        assert forall|other: Seq<Instruction>| !self.encodes(other) by {
                            if self.encodes(other) {
                                programs_agree(program, other, self.bytes@);
                                let k = program.len() as int;
                                assert(other.take(k) =~= program);
                                if k == other.len() {
                                    assert(other.take(k) =~= other);
                                }
                                encoding_of_split(other, k);
                                assert(other[k].encoding().is_prefix_of(self.bytes@.skip(pc as int)));
                            }
                        }
                    }
                    return None;
                },
            }
        }
        proof {
            assert(self.bytes@.take(pc as int) =~= self.bytes@);
            assert(instructions@.map_values(|i: (u32, Instruction)| i.1) =~= program);
        }
        Some(instructions)
    }
}

/// The encoding of a program goes on, after its first `k` instructions, with
/// that of instruction number `k`.
pub proof fn encoding_of_split(program: Seq<Instruction>, k: int)
    requires
        0 <= k < program.len(),
    ensures
        program_encoding(program.take(k)).is_prefix_of(program_encoding(program)),
        program[k].encoding().is_prefix_of(program_encoding(program).skip(pc_of(program, k))),
        pc_of(program, k) + program[k].encoding().len() <= program_encoding(program).len(),
        pc_of(program, k + 1) == pc_of(program, k) + program[k].encoding().len(),
    decreases program.len(),
{
    assert(program.take(k + 1).drop_last() =~= program.take(k));
    let last = program.len() - 1;
    if k < last {
        let shorter = program.drop_last();
        encoding_of_split(shorter, k);
        assert(shorter.take(k) =~= program.take(k));
        assert(shorter.take(k + 1) =~= program.take(k + 1));
        let whole = program_encoding(program);
        let part = program_encoding(shorter);
        assert(part.is_prefix_of(whole));
        let pc = pc_of(program, k);
        assert forall|i: int| 0 <= i < program[k].encoding().len() implies program[k].encoding()[i]
            == whole.skip(pc)[i] by {
            assert(part.skip(pc)[i] == whole.skip(pc)[i]);
        }
    } else {
        assert(program.take(k) =~= program.drop_last());
        assert(program.take(k + 1) =~= program);
    }
}

/// Every instruction lies within the bytes and takes at least one of them.
pub proof fn pc_bounds(program: Seq<Instruction>, k: int)
    requires
        0 <= k < program.len(),
    ensures
        0 <= pc_of(program, k) < pc_of(program, k + 1) <= program_encoding(program).len(),
{
    encoding_of_split(program, k);
    encoding_starts_with_opcode(program[k]);
}

/// Positions grow from one instruction to the next.
pub proof fn pcs_increase(program: Seq<Instruction>, j: int, k: int)
    requires
        0 <= j < k <= program.len(),
    ensures
        pc_of(program, j) < pc_of(program, k),
    decreases k - j,
{
    pc_bounds(program, k - 1);
    if j < k - 1 {
        pcs_increase(program, j, k - 1);
    }
}

/// Where a program encodes the front of some bytes, every program that encodes
/// all of them starts with it.
proof fn programs_agree(front: Seq<Instruction>, whole: Seq<Instruction>, bytes: Seq<u8>)
    requires
        forall|k: int| 0 <= k < front.len() ==> (#[trigger] front[k]).wf(),
        forall|k: int| 0 <= k < whole.len() ==> (#[trigger] whole[k]).wf(),
        program_encoding(front).is_prefix_of(bytes),
        program_encoding(whole) == bytes,
    ensures
        front.len() <= whole.len(),
        whole.take(front.len() as int) == front,
    decreases front.len(),
{
    if front.len() > 0 {
        let shorter = front.drop_last();
        let n = shorter.len() as int;
        assert(program_encoding(shorter).is_prefix_of(program_encoding(front)));
        assert(program_encoding(shorter).is_prefix_of(bytes));
        programs_agree(shorter, whole, bytes);
        let pc = program_encoding(shorter).len() as int;
        encoding_starts_with_opcode(front.last());
        if whole.len() == n {
            assert(whole.take(n) =~= whole);
        } else {
            encoding_of_split(whole, n);
            assert(front.last().encoding().is_prefix_of(bytes.skip(pc))) by {
                assert forall|i: int| 0 <= i < front.last().encoding().len() implies (
                front.last().encoding())[i] == bytes.skip(pc)[i] by {
                    assert(program_encoding(front)[pc + i] == bytes[pc + i]);
                }
            }
            encoding_is_prefix_free(front.last(), whole[n], bytes.skip(pc));
            assert(whole.take(n + 1) =~= whole.take(n).push(whole[n]));
            assert(front =~= shorter.push(front.last()));
        }
    } else {
        assert(whole.take(0) =~= front);
    }
}

/// Bytes encode one program at most.
pub proof fn program_is_unique(bytecode: Bytecode, a: Seq<Instruction>, b: Seq<Instruction>)
    requires
        bytecode.encodes(a),
        bytecode.encodes(b),
    ensures
        a == b,
{
    assert(bytecode.bytes@.is_prefix_of(bytecode.bytes@));
    programs_agree(a, b, bytecode.bytes@);
    programs_agree(b, a, bytecode.bytes@);
    assert(b.take(a.len() as int) =~= b);
}

/// Puts bytecode together, one instruction after the other.
pub struct BytecodeEmitter {
    bytes: Vec<u8>,
    program: Ghost<Seq<Instruction>>,
}

impl BytecodeEmitter {
    /// The instructions emitted so far.
    pub closed spec fn program(&self) -> Seq<Instruction> {
        self.program@
    }

    /// The bytes are those of the instructions emitted so far.
    pub closed spec fn wf(&self) -> bool {
        &&& forall|k: int| 0 <= k < self.program@.len() ==> (#[trigger] self.program@[k]).wf()
        &&& self.bytes@ == program_encoding(self.program@)
    }

    /// Creates an emitter that has emitted nothing.
    pub fn new() -> (emitter: BytecodeEmitter)
        ensures
            emitter.wf(),
            emitter.program() == Seq::<Instruction>::empty(),
    {
        BytecodeEmitter { bytes: Vec::new(), program: Ghost(Seq::empty()) }
    }

    /// Returns the position of the next instruction.
    pub fn next_pc(&self) -> (pc: usize)
        requires
            self.wf(),
        ensures
            pc == program_encoding(self.program()).len(),
    {
        self.bytes.len()
    }

    /// Emits an instruction.
    pub fn emit(&mut self, instruction: Instruction)
        requires
            old(self).wf(),
            instruction.wf(),
        ensures
            final(self).wf(),
            final(self).program() == old(self).program().push(instruction),
    {
        let ghost before = self.program@;
        instruction.encode(&mut self.bytes);
        self.program = Ghost(before.push(instruction));
        assert(self.program@.drop_last() =~= before);
    }

    /// Returns the bytecode of the emitted instructions.
    pub fn into_bytecode(self) -> (bytecode: Bytecode)
        requires
            self.wf(),
        ensures
            bytecode.encodes(self.program()),
            bytecode.bytes@.len() <= u32::MAX ==> bytecode.wf() && bytecode.program()
                == self.program(),
    {
        let bytecode = Bytecode { bytes: self.bytes };
        proof {
            let program = self.program@;
            assert(bytecode.encodes(program));
            if bytecode.bytes@.len() <= u32::MAX {
                program_is_unique(bytecode, program, bytecode.program());
            }
        }
        bytecode
    }
}

/// The first instruction is at position 0, and each of the others where the one before it ends.
pub proof fn positions_add_up(program: Seq<Instruction>, k: int)
    requires
        0 <= k < program.len(),
        program_encoding(program).len() <= u32::MAX,
    ensures
        located(program).len() == program.len(),
        located(program)[k].1 == program[k],
        k == 0 ==> located(program)[k].0 == 0,
        k > 0 ==> located(program)[k].0 == located(program)[k - 1].0 + program[k
            - 1].encoding().len(),
        program_encoding(program).subrange(
            located(program)[k].0 as int,
            located(program)[k].0 + program[k].encoding().len(),
        ) == program[k].encoding(),
{
    pc_bounds(program, k);
    encoding_of_split(program, k);
    if k > 0 {
        pc_bounds(program, k - 1);
        encoding_of_split(program, k - 1);
    } else {
        assert(program.take(0) =~= seq![]);
    }
    let pc = pc_of(program, k);
    let bytes = program[k].encoding();
    assert forall|i: int| 0 <= i < bytes.len() implies program_encoding(program).subrange(
        pc,
        pc + bytes.len(),
    )[i] == bytes[i] by {
        assert(program_encoding(program).skip(pc)[i] == bytes[i]);
    }
    assert(program_encoding(program).subrange(pc, pc + bytes.len()) =~= bytes);
}

} // verus!
