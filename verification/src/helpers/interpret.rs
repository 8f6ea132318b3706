//! Single instructions for the interpreter.

use vstd::prelude::*;

use crate::bytecode::{encoding_of_split, pc_bounds};
use crate::engine::Flow;
use crate::helpers::failure_raised;
use crate::instruction::{encoding_is_prefix_free, Instruction};
use crate::jumps::is_at;
use crate::value::JsError;
use crate::vm::{Vm, VmState};

verus! {

/// Asks to carry out an instruction of the running code.
#[derive(Clone, Copy, Debug, PartialEq, Eq, Structural)]
pub struct InterpretOne {
    pub instruction: Instruction,
}

/// The running code has an instruction at a position: number `k`.
pub open spec fn has_instruction_at(vm: VmState, pc: u32, k: int) -> bool {
    let bytecode = vm.frame().code_block.bytecode;
    &&& vm.frames.len() > 0
    &&& bytecode.wf()
    &&& k < bytecode.program().len()
    &&& is_at(bytecode.program(), pc, k)
}

/// Have the interpreter carry out the instruction at position `pc` of the running code.
///
/// Implements: every operation that has no helper for compiled code
pub fn jit_interpret(vm: &Vm, pc: u32) -> (request: InterpretOne)
    requires
        exists|k: int| has_instruction_at(vm@, pc, k),
    ensures
        forall|k: int| #[trigger]
            has_instruction_at(vm@, pc, k) ==> request.instruction
                == vm@.frame().code_block.bytecode.program()[k],
{
    let code = &vm.frame().code_block;
    let bytes = &code.bytecode.bytes;
    let ghost program = code.bytecode.program();
    proof {
        let k = choose|k: int| has_instruction_at(vm@, pc, k);
        assert(code.bytecode.encodes(program));
        pc_bounds(program, k);
    }
    let decoded = Instruction::decode(bytes, pc as usize);
    proof {
        assert forall|k: int| #[trigger] has_instruction_at(vm@, pc, k) implies (
        decoded matches Some((instruction, _)) && instruction == program[k]) by {
            encoding_of_split(program, k);
            assert(program[k].wf());
            if let Some((instruction, next)) = decoded {
                let rest = bytes@.skip(pc as int);
                assert forall|i: int| 0 <= i < instruction.encoding().len() implies (
                instruction.encoding())[i] == rest[i] by {
                    assert(bytes@.subrange(pc as int, next as int)[i] == rest[i]);
                }
                encoding_is_prefix_free(instruction, program[k], rest);
            }
        }
    }
    let (instruction, _) = decoded.unwrap();
    InterpretOne { instruction }
}

/// How control goes on after an instruction that jumps, does not jump, or fails.
pub open spec fn flow_of(jumps: Result<bool, JsError>) -> Flow {
    match jumps {
        Ok(false) => Flow::Next,
        Ok(true) => Flow::Jump,
        Err(_) => Flow::Throw,
    }
}

impl InterpretOne {
    /// Goes on when the instruction was carried out. Returns 0 if it does not jump, 1 if it
    /// does, and 2 on exception.
    pub fn resume(self, vm: &mut Vm, jumps: Result<bool, JsError>) -> (code: u64)
        ensures
            code == flow_of(jumps).status(),
            final(vm)@ == failure_raised(old(vm)@, jumps),
    {
        match jumps {
            Ok(false) => 0,
            Ok(true) => 1,
            Err(error) => {
                vm.raise(error);
                2
            },
        }
    }
}

/// An instruction that the interpreter carried out goes on with status 0, jumps with 1 and
/// fails with 2.
pub proof fn interpreted_statuses(jumps: Result<bool, JsError>)
    ensures
        flow_of(jumps).status() == 0 <==> jumps == Ok::<bool, JsError>(false),
        flow_of(jumps).status() == 1 <==> jumps == Ok::<bool, JsError>(true),
        flow_of(jumps).status() == 2 <==> jumps is Err,
        flow_of(jumps) is Jump <==> jumps == Ok::<bool, JsError>(true),
        flow_of(jumps) is Throw <==> jumps is Err,
{
}

} // verus!
