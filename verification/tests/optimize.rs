//! Type propagation.

use std::collections::HashMap;

use boa_jit::bytecode::{Bytecode, BytecodeEmitter};
use boa_jit::instruction::Instruction;
use boa_jit::ir::{build_ir, ValueType};
use boa_jit::opcode::Opcode;
use boa_jit::optimize::{build_type_map, infer_type, instruction_dst, optimize};

fn emit(bytes: &mut Vec<u8>, opcode: Opcode, operands: &[u32]) {
    bytes.push(opcode.to_byte());
    for &op in operands {
        bytes.extend_from_slice(&op.to_le_bytes());
    }
}

#[test]
fn type_int32_constants() {
    let mut bytes = Vec::new();
    emit(&mut bytes, Opcode::StoreInt32, &[1, 42]);
    emit(&mut bytes, Opcode::StoreZero, &[2]);

    let bc = Bytecode { bytes };
    let mut ir = build_ir(&bc);
    optimize(&mut ir);

    assert_eq!(ir.blocks[0].body[0].ty, ValueType::Int32);
    assert_eq!(ir.blocks[0].body[1].ty, ValueType::Int32);
}

#[test]
fn type_bitwise_always_int32() {
    let mut bytes = Vec::new();
    emit(&mut bytes, Opcode::BitOr, &[3, 1, 2]);

    let bc = Bytecode { bytes };
    let mut ir = build_ir(&bc);
    optimize(&mut ir);

    assert_eq!(ir.blocks[0].body[0].ty, ValueType::Int32);
}

#[test]
fn type_add_int32_inputs() {
    let mut bytes = Vec::new();
    emit(&mut bytes, Opcode::StoreInt32, &[1, 10]);
    emit(&mut bytes, Opcode::StoreInt32, &[2, 20]);
    emit(&mut bytes, Opcode::Add, &[3, 1, 2]);

    let bc = Bytecode { bytes };
    let mut ir = build_ir(&bc);
    optimize(&mut ir);

    assert_eq!(ir.blocks[0].body[2].ty, ValueType::Int32);
}

#[test]
fn type_add_unknown_input() {
    let mut bytes = Vec::new();
    emit(&mut bytes, Opcode::GetArgument, &[0, 1]);
    emit(&mut bytes, Opcode::StoreInt32, &[2, 20]);
    emit(&mut bytes, Opcode::Add, &[3, 1, 2]);

    let bc = Bytecode { bytes };
    let mut ir = build_ir(&bc);
    optimize(&mut ir);

    assert_eq!(ir.blocks[0].body[2].ty, ValueType::Unknown);
}

#[test]
fn type_comparison_boolean() {
    let mut bytes = Vec::new();
    emit(&mut bytes, Opcode::StrictEq, &[3, 1, 2]);

    let bc = Bytecode { bytes };
    let mut ir = build_ir(&bc);
    optimize(&mut ir);

    assert_eq!(ir.blocks[0].body[0].ty, ValueType::Boolean);
}

#[test]
fn type_map_built_from_ir() {
    let mut bytes = Vec::new();
    emit(&mut bytes, Opcode::StoreInt32, &[1, 10]); // PC 0
    emit(&mut bytes, Opcode::StoreInt32, &[2, 20]); // PC 9
    emit(&mut bytes, Opcode::Add, &[3, 1, 2]); // PC 18

    let bc = Bytecode { bytes };
    let mut ir = build_ir(&bc);
    optimize(&mut ir);
    let tm = build_type_map(&ir);

    assert_eq!(tm.get(&0), Some(&ValueType::Int32));
    assert_eq!(tm.get(&9), Some(&ValueType::Int32));
    assert_eq!(tm.get(&18), Some(&ValueType::Int32));
}

#[test]
fn types_do_not_cross_blocks() {
    let mut emitter = BytecodeEmitter::new();
    emitter.emit(Instruction::StoreOne { dst: 1 });
    emitter.emit(Instruction::Jump { address: 10 });
    emitter.emit(Instruction::Move { dst: 2, src: 1 });
    let mut ir = build_ir(&emitter.into_bytecode());
    optimize(&mut ir);
    assert_eq!(ir.blocks[0].body[0].ty, ValueType::Int32);
    assert_eq!(ir.blocks[1].body[0].ty, ValueType::Unknown);
}

#[test]
fn unknown_write_forgets_type() {
    let mut emitter = BytecodeEmitter::new();
    emitter.emit(Instruction::StoreFalse { dst: 1 });
    emitter.emit(Instruction::Move { dst: 2, src: 1 });
    emitter.emit(Instruction::StoreNull { dst: 1 });
    emitter.emit(Instruction::Move { dst: 3, src: 1 });
    let mut ir = build_ir(&emitter.into_bytecode());
    optimize(&mut ir);
    let types: Vec<ValueType> = ir.blocks[0].body.iter().map(|inst| inst.ty).collect();
    assert_eq!(
        types,
        vec![ValueType::Boolean, ValueType::Boolean, ValueType::Unknown, ValueType::Unknown]
    );
    let map = build_type_map(&ir);
    assert_eq!(map.len(), 2);
    assert_eq!(map.get(&14), None);
}

#[test]
fn optimizing_twice_changes_nothing() {
    let mut emitter = BytecodeEmitter::new();
    emitter.emit(Instruction::StoreDouble { dst: 1, bits: 1.5f64.to_bits() });
    emitter.emit(Instruction::StoreInt8 { dst: 2, value: -3 });
    emitter.emit(Instruction::Dec { dst: 3, src: 2 });
    emitter.emit(Instruction::Mul { dst: 4, lhs: 1, rhs: 3 });
    let mut ir = build_ir(&emitter.into_bytecode());
    optimize(&mut ir);
    let first = ir.blocks[0].body.clone();
    assert_eq!(first[0].ty, ValueType::Float64);
    assert_eq!(first[2].ty, ValueType::Int32);
    assert_eq!(first[3].ty, ValueType::Unknown);
    optimize(&mut ir);
    assert_eq!(ir.blocks[0].body, first);
}

#[test]
fn inference_reports_the_written_register() {
    let mut types = HashMap::new();
    types.insert(5u32, ValueType::Int32);
    assert_eq!(
        infer_type(&Instruction::Inc { dst: 6, src: 5 }, &types),
        (ValueType::Int32, Some(6))
    );
    assert_eq!(
        infer_type(&Instruction::Inc { dst: 6, src: 7 }, &types),
        (ValueType::Unknown, Some(6))
    );
    assert_eq!(infer_type(&Instruction::Return, &types), (ValueType::Unknown, None));
    assert_eq!(instruction_dst(&Instruction::GetArgument { index: 1, dst: 9 }), Some(9));
    assert_eq!(instruction_dst(&Instruction::SetAccumulator { src: 9 }), None);
}
