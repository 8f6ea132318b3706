//! Splitting bytecode into basic blocks.

use boa_jit::bytecode::{Bytecode, BytecodeEmitter};
use boa_jit::instruction::Instruction;
use boa_jit::ir::{build_ir, is_terminator, jump_target, Terminator};
use boa_jit::opcode::Opcode;

fn emit(bytes: &mut Vec<u8>, opcode: Opcode, operands: &[u32]) {
    bytes.push(opcode.to_byte());
    for &op in operands {
        bytes.extend_from_slice(&op.to_le_bytes());
    }
}

fn emit_jump(bytes: &mut Vec<u8>, opcode: Opcode, address: u32) {
    bytes.push(opcode.to_byte());
    bytes.extend_from_slice(&address.to_le_bytes());
}

fn emit_cond_jump(bytes: &mut Vec<u8>, opcode: Opcode, address: u32, regs: &[u32]) {
    bytes.push(opcode.to_byte());
    bytes.extend_from_slice(&address.to_le_bytes());
    for &r in regs {
        bytes.extend_from_slice(&r.to_le_bytes());
    }
}

#[test]
fn straight_line_single_block() {
    let mut bytes = Vec::new();
    emit(&mut bytes, Opcode::StoreInt32, &[1, 42]);
    emit(&mut bytes, Opcode::StoreInt32, &[2, 7]);
    emit(&mut bytes, Opcode::Add, &[3, 1, 2]);

    let bc = Bytecode { bytes };
    assert!(bc.is_well_formed());
    let ir = build_ir(&bc);
    assert_eq!(ir.blocks.len(), 1);
    assert_eq!(ir.blocks[0].body.len(), 3);
    assert!(matches!(ir.blocks[0].terminator, Terminator::End));
}

#[test]
fn jump_splits_blocks() {
    // StoreInt32 r1, 0; Jump <after>; StoreInt32 r2, 1
    let mut bytes = Vec::new();
    emit(&mut bytes, Opcode::StoreInt32, &[1, 0]); // 9 bytes, PC 0
    let target_pc = 9 + 5; // Jump is 5 bytes, target is PC 14
    emit_jump(&mut bytes, Opcode::Jump, target_pc as u32); // 5 bytes, PC 9
    emit(&mut bytes, Opcode::StoreInt32, &[2, 1]); // 9 bytes, PC 14

    let bc = Bytecode { bytes };
    assert!(bc.is_well_formed());
    let ir = build_ir(&bc);

    // Jump at PC 9, size 5, so the next PC is 14, which is the target.
    assert!(ir.blocks.len() >= 2, "got {} blocks", ir.blocks.len());
    // First block has StoreInt32 in body and Jump as terminator.
    assert_eq!(ir.blocks[0].body.len(), 1);
    // Last block has the target StoreInt32.
    let last = ir.blocks.last().unwrap();
    assert_eq!(last.start_pc, 14);
}

#[test]
fn backward_jump_creates_block_at_target() {
    // loop: StoreInt32 r1, 0; Jump <loop>
    let mut bytes = Vec::new();
    emit(&mut bytes, Opcode::StoreInt32, &[1, 0]); // 9 bytes, PC 0
    emit_jump(&mut bytes, Opcode::Jump, 0); // Jump back to PC 0

    let bc = Bytecode { bytes };
    assert!(bc.is_well_formed());
    let ir = build_ir(&bc);

    // Single block: StoreInt32 body + Jump terminator
    // (PC 0 is a jump target but it's also the block start, so no split)
    assert_eq!(ir.blocks.len(), 1);
    assert_eq!(ir.blocks[0].body.len(), 1);
    assert_eq!(ir.blocks[0].start_pc, 0);
}

#[test]
fn conditional_branch_splits() {
    let mut bytes = Vec::new();
    emit(&mut bytes, Opcode::StoreInt32, &[1, 0]); // 9 bytes, PC 0
    let target_pc = 9 + 9 + 9; // after the JumpIfTrue and one more instruction
    emit_cond_jump(&mut bytes, Opcode::JumpIfTrue, target_pc as u32, &[1]); // 9 bytes, PC 9
    emit(&mut bytes, Opcode::StoreInt32, &[2, 1]); // 9 bytes, PC 18
    emit(&mut bytes, Opcode::StoreInt32, &[3, 2]); // 9 bytes, PC 27

    let bc = Bytecode { bytes };
    assert!(bc.is_well_formed());
    let ir = build_ir(&bc);

    // Block 0: StoreInt32 + JumpIfTrue terminator
    // Block 1: StoreInt32 (fallthrough, PC 18)
    // Block 2: StoreInt32 (jump target, PC 27)
    assert!(ir.blocks.len() >= 2);
    assert!(matches!(
        ir.blocks[0].terminator,
        Terminator::Instruction(9, Instruction::JumpIfTrue { .. })
    ));
}

#[test]
fn real_bytecode_builds_ir() {
    // function f(n) { var s = 0; for (var i = 0; i < n; i++) s = s + i; return s; }
    let mut emitter = BytecodeEmitter::new();
    emitter.emit(Instruction::GetArgument { index: 0, dst: 0 });
    emitter.emit(Instruction::StoreZero { dst: 1 });
    emitter.emit(Instruction::StoreZero { dst: 2 });
    let start = emitter.next_pc() as u32;
    emitter.emit(Instruction::IncrementLoopIteration);
    // The exit is behind this jump (13 bytes), Add (13), Inc (9) and Jump (5).
    let exit = emitter.next_pc() as u32 + 13 + 13 + 9 + 5;
    emitter.emit(Instruction::JumpIfNotLessThan { address: exit, lhs: 2, rhs: 0 });
    emitter.emit(Instruction::Add { dst: 1, lhs: 1, rhs: 2 });
    emitter.emit(Instruction::Inc { dst: 2, src: 2 });
    emitter.emit(Instruction::Jump { address: start });
    assert_eq!(emitter.next_pc() as u32, exit);
    emitter.emit(Instruction::SetAccumulator { src: 1 });
    emitter.emit(Instruction::CheckReturn);
    emitter.emit(Instruction::Return);
    let bytecode = emitter.into_bytecode();

    let ir = build_ir(&bytecode);

    // A for-loop function should have multiple blocks.
    assert!(
        ir.blocks.len() >= 3,
        "for-loop function should have at least 3 blocks, got {}",
        ir.blocks.len()
    );

    // Every non-empty block should have a valid start_pc.
    let bytecode_len = bytecode.bytes.len() as u32;
    for block in &ir.blocks {
        if !block.body.is_empty() || matches!(block.terminator, Terminator::Instruction(..)) {
            assert!(
                block.start_pc < bytecode_len,
                "block start_pc {} >= bytecode_len {}",
                block.start_pc,
                bytecode_len
            );
        }
    }

    // The blocks are those of a loop: entry, head, body and exit.
    assert_eq!(ir.blocks.len(), 4);
    assert_eq!(ir.blocks[1].start_pc, start);
    assert_eq!(ir.blocks[3].start_pc, exit);
    assert!(matches!(ir.blocks[0].terminator, Terminator::Fallthrough));
}

#[test]
fn no_bytecode_has_no_blocks() {
    let bc = Bytecode { bytes: Vec::new() };
    assert!(bc.is_well_formed());
    assert_eq!(build_ir(&bc).blocks.len(), 0);
}

#[test]
fn return_ends_a_block() {
    let mut emitter = BytecodeEmitter::new();
    emitter.emit(Instruction::Return);
    emitter.emit(Instruction::StoreOne { dst: 4 });
    let ir = build_ir(&emitter.into_bytecode());
    assert_eq!(ir.blocks.len(), 2);
    assert!(ir.blocks[0].body.is_empty());
    assert_eq!(ir.blocks[0].terminator, Terminator::Instruction(0, Instruction::Return));
    assert_eq!(ir.blocks[1].start_pc, 1);
    assert_eq!(ir.blocks[1].terminator, Terminator::End);
}

#[test]
fn blocks_hold_all_code_in_order() {
    let mut emitter = BytecodeEmitter::new();
    emitter.emit(Instruction::StoreTrue { dst: 0 });
    emitter.emit(Instruction::LogicalAnd { address: 5, value: 0 });
    emitter.emit(Instruction::Coalesce { address: 14, value: 0 });
    let bytecode = emitter.into_bytecode();
    let code = bytecode.instructions();
    let ir = build_ir(&bytecode);
    let mut found = Vec::new();
    for block in &ir.blocks {
        for inst in &block.body {
            found.push((inst.pc, inst.instruction));
        }
        if let Terminator::Instruction(pc, instruction) = block.terminator {
            found.push((pc, instruction));
        }
    }
    assert_eq!(found, code);
}

#[test]
fn targets_and_terminators() {
    assert_eq!(jump_target(&Instruction::Jump { address: 77 }), Some(77));
    assert_eq!(jump_target(&Instruction::Case { address: 3, value: 1, condition: 2 }), Some(3));
    assert_eq!(jump_target(&Instruction::Return), None);
    assert!(is_terminator(&Instruction::Return));
    assert!(is_terminator(&Instruction::Jump { address: 0 }));
    assert!(!is_terminator(&Instruction::CheckReturn));
}
