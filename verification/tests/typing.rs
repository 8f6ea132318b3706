//! Annotated types against the values that the helpers leave in registers.

use std::rc::Rc;

use boa_jit::bytecode::BytecodeEmitter;
use boa_jit::code_block::CodeBlock;
use boa_jit::helpers::data::{
    jit_move, jit_pop_into_register, jit_push_from_register, jit_store_int16, jit_store_int32,
    jit_store_int8, jit_store_one, jit_store_zero,
};
use boa_jit::instruction::Instruction;
use boa_jit::ir::{build_ir, ValueType};
use boa_jit::optimize::{instruction_dst, optimize};
use boa_jit::value::JsValue;
use boa_jit::vm::{CallFrame, Vm};

fn carry_out(vm: &mut Vm, instruction: Instruction) {
    match instruction {
        Instruction::StoreZero { dst } => jit_store_zero(vm, dst),
        Instruction::StoreOne { dst } => jit_store_one(vm, dst),
        Instruction::StoreInt8 { dst, value } => jit_store_int8(vm, dst, value),
        Instruction::StoreInt16 { dst, value } => jit_store_int16(vm, dst, value),
        Instruction::StoreInt32 { dst, value } => jit_store_int32(vm, dst, value),
        Instruction::Move { dst, src } => jit_move(vm, dst, src),
        Instruction::PushFromRegister { src } => jit_push_from_register(vm, src),
        Instruction::PopIntoRegister { dst } => jit_pop_into_register(vm, dst),
        other => panic!("{other:?}"),
    }
}

#[test]
fn known_types_hold_at_run_time() {
    let program = vec![
        Instruction::StoreInt16 { dst: 0, value: -300 },
        Instruction::Move { dst: 1, src: 0 },
        Instruction::PushFromRegister { src: 3 },
        Instruction::PopIntoRegister { dst: 0 },
        Instruction::Move { dst: 2, src: 0 },
        Instruction::StoreOne { dst: 2 },
        Instruction::StoreInt8 { dst: 0, value: -1 },
        Instruction::StoreInt32 { dst: 1, value: i32::MIN },
        Instruction::StoreZero { dst: 1 },
    ];
    let mut emitter = BytecodeEmitter::new();
    for instruction in &program {
        emitter.emit(*instruction);
    }
    let mut ir = build_ir(&emitter.into_bytecode());
    let before = ir.blocks[0].body.clone();
    optimize(&mut ir);

    let mut vm = Vm {
        stack: vec![JsValue::Null; 6],
        frames: vec![CallFrame {
            code_block: Rc::new(CodeBlock::new("test".to_string(), 0, false)),
            rp: 2,
            argument_count: 0,
            loop_iteration_count: 0,
            construct: false,
            exit_early: false,
            this_value_cached: false,
        }],
        return_value: JsValue::Undefined,
        pending_exception: None,
        loop_iteration_limit: 0,
    };
    let mut known = 0;
    for (k, inst) in ir.blocks[0].body.iter().enumerate() {
        // Only annotations are new.
        assert_eq!((inst.pc, inst.instruction), (before[k].pc, before[k].instruction));
        carry_out(&mut vm, inst.instruction);
        if let Some(dst) = instruction_dst(&inst.instruction) {
            let integer = matches!(vm.get_register(dst), JsValue::Integer32(_));
            assert_eq!(inst.ty == ValueType::Int32, integer);
            known += usize::from(integer);
        }
    }
    assert_eq!(known, 6);
}
