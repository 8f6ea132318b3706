//! Where jumps lead.
//!
//! Jumps name the position of an instruction in bytes. Compiled code goes by the number of
//! the instruction.

use vstd::prelude::*;

use crate::bytecode::{located, pc_bounds, pc_of, pcs_increase, program_encoding, Bytecode};
use crate::instruction::Instruction;
use crate::ir::{jump_target, jump_target_is_read_off_encoding, spec_jump_target};
use crate::little_endian::le_value;

verus! {

/// An address is the position of instruction number `k`. The position where the program ends
/// counts as well.
pub open spec fn is_at(program: Seq<Instruction>, address: u32, k: int) -> bool {
    &&& 0 <= k <= program.len()
    &&& pc_of(program, k) == address
}

/// An instruction starts at an address, or the program ends there.
pub open spec fn lands(program: Seq<Instruction>, address: u32) -> bool {
    exists|k: int| is_at(program, address, k)
}

/// The number of the instruction at an address.
pub open spec fn index_of(program: Seq<Instruction>, address: u32) -> int {
    choose|k: int| is_at(program, address, k)
}

/// Every jump of a program leads to an instruction or to its end.
pub open spec fn jumps_land(program: Seq<Instruction>) -> bool {
    forall|k: int|
        0 <= k < program.len() ==> jump_lands(program, #[trigger] program[k])
}

/// If an instruction jumps, it jumps to an instruction or to the end.
pub open spec fn jump_lands(program: Seq<Instruction>, instruction: Instruction) -> bool {
    spec_jump_target(instruction) matches Some(address) ==> lands(program, address)
}

/// No two instructions are at the same address.
pub proof fn index_is_unique(program: Seq<Instruction>, address: u32, k: int)
    requires
        is_at(program, address, k),
    ensures
        lands(program, address),
        index_of(program, address) == k,
{
    let j = index_of(program, address);
    if j < k {
        pcs_increase(program, j, k);
    } else if k < j {
        pcs_increase(program, k, j);
    }
}

/// Finds the number of the instruction at an address. `end` is where the program ends.
pub(crate) fn find_instruction(
    instructions: &Vec<(u32, Instruction)>,
    end: u32,
    address: u32,
    program: Ghost<Seq<Instruction>>,
) -> (found: Option<usize>)
    requires
        instructions@ == located(program@),
        end == program_encoding(program@).len(),
    ensures
        match found {
            Some(k) => lands(program@, address) && index_of(program@, address) == k && k
                <= instructions@.len(),
            None => !lands(program@, address),
        },
{
    let n: usize = instructions.len();
    assert(program@.take(n as int) =~= program@);
    if address == end {
        proof {
            index_is_unique(program@, address, n as int);
        }
        return Some(n);
    }
    let mut low: usize = 0;
    let mut high: usize = n;
    while low < high
        invariant
            low <= high <= n,
            n == instructions@.len(),
            n == program@.len(),
            instructions@ == located(program@),
            program_encoding(program@).len() <= u32::MAX,
            address != end,
            pc_of(program@, n as int) == end,
            forall|k: int| #[trigger] is_at(program@, address, k) ==> low <= k < high || k == n,
        decreases high - low,
    {
        let middle: usize = low + (high - low) / 2;
        let (pc, _) = instructions[middle];
        proof {
            pc_bounds(program@, middle as int);
            assert(pc == pc_of(program@, middle as int));
        }
        if pc == address {
            proof {
                index_is_unique(program@, address, middle as int);
            }
            return Some(middle);
        }
        proof {
            assert forall|k: int| #[trigger] is_at(program@, address, k) implies if pc < address {
                k > middle
            } else {
                k < middle || k == n
            } by {
                if k < middle {
                    pcs_increase(program@, k, middle as int);
                } else if middle < k {
                    pcs_increase(program@, middle as int, k);
                }
            }
        }
        if pc < address {
            low = middle + 1;
        } else {
            high = middle;
        }
    }
    None
}

/// Tells whether every jump leads to an instruction or to the end.
pub fn has_valid_jumps(bytecode: &Bytecode) -> (yes: bool)
    requires
        bytecode.wf(),
    ensures
        yes == jumps_land(bytecode.program()),
{
    let instructions = bytecode.instructions();
    let ghost program = bytecode.program();
    let end: u32 = bytecode.bytes.len() as u32;
    let mut k: usize = 0;
    while k < instructions.len()
        invariant
            k <= instructions@.len(),
            program == bytecode.program(),
            instructions@ == located(program),
            end == program_encoding(program).len(),
            forall|j: int| 0 <= j < k ==> jump_lands(program, #[trigger] program[j]),
        decreases instructions@.len() - k,
    {
        assert(instructions@[k as int].1 == program[k as int]);
        if let Some(address) = jump_target(&instructions[k].1) {
            if find_instruction(&instructions, end, address, Ghost(program)).is_none() {
                assert(!jump_lands(program, program[k as int]));
                return false;
            }
        }
        k = k + 1;
    }
    true
}

/// The jumps of a program are valid exactly if each address in it, which is the first word of
/// an operation with a byte from 50 to 64 other than 52, is where some number of its first
/// instructions end.
pub proof fn valid_jumps_lead_to_instructions(program: Seq<Instruction>)
    requires
        forall|j: int| 0 <= j < program.len() ==> (#[trigger] program[j]).wf(),
    ensures
        jumps_land(program) <==> forall|j: int|
            0 <= j < program.len() ==> {
                let bytes = (#[trigger] program[j]).encoding();
                50 <= bytes[0] <= 64 && bytes[0] != 52 ==> exists|k: int|
                    0 <= k <= program.len() && program_encoding(#[trigger] program.take(k)).len()
                        == le_value(bytes.subrange(1, 5))
            },
{
    assert forall|j: int| 0 <= j < program.len() implies (jump_lands(
        program,
        #[trigger] program[j],
    ) <==> {
        let bytes = program[j].encoding();
        50 <= bytes[0] <= 64 && bytes[0] != 52 ==> exists|k: int|
            0 <= k <= program.len() && program_encoding(#[trigger] program.take(k)).len()
                == le_value(bytes.subrange(1, 5))
    }) by {
        jump_target_is_read_off_encoding(program[j]);
        if let Some(address) = spec_jump_target(program[j]) {
            if lands(program, address) {
                let k = choose|k: int| is_at(program, address, k);
                assert(program_encoding(program.take(k)).len() == address);
            }
            let bytes = program[j].encoding();
            if exists|k: int|
                0 <= k <= program.len() && program_encoding(#[trigger] program.take(k)).len()
                    == le_value(bytes.subrange(1, 5)) {
                let k = choose|k: int|
                    0 <= k <= program.len() && program_encoding(#[trigger] program.take(k)).len()
                        == le_value(bytes.subrange(1, 5));
                assert(is_at(program, address, k));
            }
        }
    }
    if jumps_land(program) {
        assert forall|j: int| 0 <= j < program.len() implies {
            let bytes = (#[trigger] program[j]).encoding();
            50 <= bytes[0] <= 64 && bytes[0] != 52 ==> exists|k: int|
                0 <= k <= program.len() && program_encoding(#[trigger] program.take(k)).len()
                    == le_value(bytes.subrange(1, 5))
        } by {
            assert(jump_lands(program, program[j]));
        }
    }
}

} // verus!
