//! Encoding and decoding of bytecode.

use boa_jit::bytecode::{Bytecode, BytecodeEmitter};
use boa_jit::instruction::Instruction;
use boa_jit::opcode::{Opcode, NAMED_OPCODES};

#[test]
fn opcodes_and_bytes_correspond() {
    for byte in 0..=u8::MAX {
        let opcode = Opcode::from_byte(byte);
        assert_eq!(opcode.to_byte(), byte);
        assert_eq!(matches!(opcode, Opcode::Other(_)), byte >= NAMED_OPCODES);
    }
    assert_eq!(Opcode::from_byte(200), Opcode::Other(200));
}

#[test]
fn instructions_are_laid_out_little_endian() {
    let mut bytes = Vec::new();
    Instruction::StoreInt32 { dst: 0x0102, value: -2 }.encode(&mut bytes);
    assert_eq!(
        bytes,
        vec![Opcode::StoreInt32.to_byte(), 0x02, 0x01, 0, 0, 0xFE, 0xFF, 0xFF, 0xFF]
    );
    let mut bytes = Vec::new();
    Instruction::StoreInt8 { dst: 1, value: -1 }.encode(&mut bytes);
    assert_eq!(bytes, vec![Opcode::StoreInt8.to_byte(), 1, 0, 0, 0, 0xFF]);
    // Jumps start with their address.
    let mut bytes = Vec::new();
    Instruction::JumpIfTrue { address: 9, value: 4 }.encode(&mut bytes);
    assert_eq!(bytes, vec![Opcode::JumpIfTrue.to_byte(), 9, 0, 0, 0, 4, 0, 0, 0]);
}

#[test]
fn decoding_gives_back_what_was_emitted() {
    let program = vec![
        Instruction::GetArgument { index: 1, dst: 2 },
        Instruction::StoreInt8 { dst: 3, value: i8::MIN },
        Instruction::StoreInt16 { dst: 3, value: i16::MIN },
        Instruction::StoreInt32 { dst: 3, value: i32::MIN },
        Instruction::StoreFloat { dst: 4, bits: 1.25f32.to_bits() },
        Instruction::StoreDouble { dst: 5, bits: f64::MAX.to_bits() },
        Instruction::SetPropertyByValue { value: 1, key: 2, receiver: 3, object: 4 },
        Instruction::Jump { address: u32::MAX },
        Instruction::Other { byte: 255 },
        Instruction::CheckReturn,
        Instruction::Return,
    ];
    let mut emitter = BytecodeEmitter::new();
    let mut positions = Vec::new();
    for instruction in &program {
        positions.push(emitter.next_pc() as u32);
        emitter.emit(*instruction);
    }
    let bytecode = emitter.into_bytecode();
    assert!(bytecode.is_well_formed());
    let decoded = bytecode.instructions();
    assert_eq!(decoded.len(), program.len());
    for (k, (pc, instruction)) in decoded.into_iter().enumerate() {
        assert_eq!(pc, positions[k]);
        assert_eq!(instruction, program[k]);
    }
}

#[test]
fn cut_off_instructions_are_not_well_formed() {
    let mut bytes = Vec::new();
    Instruction::Move { dst: 1, src: 2 }.encode(&mut bytes);
    assert_eq!(
        Instruction::decode(&bytes, 0),
        Some((Instruction::Move { dst: 1, src: 2 }, 9))
    );
    assert!(Bytecode { bytes: bytes.clone() }.is_well_formed());
    bytes.pop();
    assert_eq!(Instruction::decode(&bytes, 0), None);
    assert!(!Bytecode { bytes }.is_well_formed());
}
