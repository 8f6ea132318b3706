//! Compiling bytecode to native code.

use boa_jit::backend::HostError;
use boa_jit::bytecode::BytecodeEmitter;
use boa_jit::code_block::CodeBlock;
use boa_jit::compiler::{HelperAddresses, JitCompiler};
use boa_jit::instruction::Instruction;
use boa_jit::jumps::has_valid_jumps;
use boa_jit::names::jit_function_name;
use boa_jit::opcode::Opcode;
use boa_jit::support::{can_compile, is_supported_opcode};
use boa_jit::translate::{lower, Helper, Lowering, HELPER_COUNT};
use cranelift_codegen::CodegenError;
use cranelift_jit::JITBuilder;

fn helper() {}

/// Addresses for helpers that are linked but never called.
fn addresses() -> HelperAddresses {
    let address = helper as fn() as usize;
    HelperAddresses { addresses: [address; 45] }
}

fn code_block(instructions: &[Instruction]) -> CodeBlock {
    let mut emitter = BytecodeEmitter::new();
    for instruction in instructions {
        emitter.emit(*instruction);
    }
    let mut code = CodeBlock::new("test".to_string(), 0, false);
    code.bytecode = emitter.into_bytecode();
    code.register_count = 1;
    code
}

#[test]
fn jit_compiler_creates_successfully() {
    let compiler = JitCompiler::new(addresses());
    assert!(compiler.is_ok(), "JIT compiler should initialize on x86-64");
}

#[test]
fn compile_trivial_function() {
    // Build: StoreZero r0; SetAccumulator r0; CheckReturn; Return
    let mut emitter = BytecodeEmitter::new();
    emitter.emit(Instruction::StoreZero { dst: 0 });
    emitter.emit(Instruction::SetAccumulator { src: 0 });
    emitter.emit(Instruction::CheckReturn);
    emitter.emit(Instruction::Return);

    let mut code = CodeBlock::new("test".to_string(), 0, false);
    code.bytecode = emitter.into_bytecode();
    code.register_count = 1;

    assert!(can_compile(&code), "trivial code should be compilable");

    let mut compiler = match JitCompiler::new(addresses()) {
        Ok(compiler) => compiler,
        Err(error) => panic!("compiler should init: {error}"),
    };
    let jit_fn = compiler.compile(&code).unwrap();
    assert!(jit_fn.is_some(), "should compile trivial function");
}

#[test]
fn can_compile_rejects_unsupported() {
    // Pop is not in the supported set.
    let mut emitter = BytecodeEmitter::new();
    emitter.emit(Instruction::Pop);
    emitter.emit(Instruction::CheckReturn);
    emitter.emit(Instruction::Return);

    let mut code = CodeBlock::new("test".to_string(), 0, false);
    code.bytecode = emitter.into_bytecode();
    code.register_count = 1;

    assert!(
        !can_compile(&code),
        "code with Pop should not be compilable"
    );

    let mut compiler = match JitCompiler::new(addresses()) {
        Ok(compiler) => compiler,
        Err(error) => panic!("compiler should init: {error}"),
    };
    assert!(
        compiler.compile(&code).unwrap().is_none(),
        "compile should return None for unsupported code"
    );
}

/// Every instruction that is supported, with operands. Those that jump go back to the start.
fn supported_instructions() -> Vec<Instruction> {
    vec![
        Instruction::Move { dst: 1, src: 2 },
        Instruction::StoreZero { dst: 1 },
        Instruction::StoreOne { dst: 1 },
        Instruction::StoreInt8 { dst: 1, value: 2 },
        Instruction::StoreInt16 { dst: 1, value: 2 },
        Instruction::StoreInt32 { dst: 1, value: 2 },
        Instruction::StoreFloat { dst: 1, bits: 2 },
        Instruction::StoreDouble { dst: 1, bits: 2 },
        Instruction::StoreNan { dst: 1 },
        Instruction::StorePositiveInfinity { dst: 1 },
        Instruction::StoreNegativeInfinity { dst: 1 },
        Instruction::StoreNull { dst: 1 },
        Instruction::StoreTrue { dst: 1 },
        Instruction::StoreFalse { dst: 1 },
        Instruction::StoreUndefined { dst: 1 },
        Instruction::GetArgument { index: 1, dst: 2 },
        Instruction::This { dst: 1 },
        Instruction::SetAccumulator { src: 1 },
        Instruction::PushFromRegister { src: 1 },
        Instruction::PopIntoRegister { dst: 1 },
        Instruction::Add { dst: 1, lhs: 2, rhs: 3 },
        Instruction::Sub { dst: 1, lhs: 2, rhs: 3 },
        Instruction::Mul { dst: 1, lhs: 2, rhs: 3 },
        Instruction::Div { dst: 1, lhs: 2, rhs: 3 },
        Instruction::Mod { dst: 1, lhs: 2, rhs: 3 },
        Instruction::Pow { dst: 1, lhs: 2, rhs: 3 },
        Instruction::Neg { value: 1 },
        Instruction::Pos { value: 1 },
        Instruction::Inc { dst: 1, src: 2 },
        Instruction::Dec { dst: 1, src: 2 },
        Instruction::BitOr { dst: 1, lhs: 2, rhs: 3 },
        Instruction::BitAnd { dst: 1, lhs: 2, rhs: 3 },
        Instruction::BitXor { dst: 1, lhs: 2, rhs: 3 },
        Instruction::BitNot { value: 1 },
        Instruction::ShiftLeft { dst: 1, lhs: 2, rhs: 3 },
        Instruction::ShiftRight { dst: 1, lhs: 2, rhs: 3 },
        Instruction::UnsignedShiftRight { dst: 1, lhs: 2, rhs: 3 },
        Instruction::StrictEq { dst: 1, lhs: 2, rhs: 3 },
        Instruction::StrictNotEq { dst: 1, lhs: 2, rhs: 3 },
        Instruction::Eq { dst: 1, lhs: 2, rhs: 3 },
        Instruction::NotEq { dst: 1, lhs: 2, rhs: 3 },
        Instruction::GreaterThan { dst: 1, lhs: 2, rhs: 3 },
        Instruction::GreaterThanOrEq { dst: 1, lhs: 2, rhs: 3 },
        Instruction::LessThan { dst: 1, lhs: 2, rhs: 3 },
        Instruction::LessThanOrEq { dst: 1, lhs: 2, rhs: 3 },
        Instruction::InstanceOf { dst: 1, lhs: 2, rhs: 3 },
        Instruction::IsObject { value: 1 },
        Instruction::ValueNotNullOrUndefined { value: 1 },
        Instruction::LogicalAnd { address: 0, value: 2 },
        Instruction::LogicalOr { address: 0, value: 2 },
        Instruction::LogicalNot { value: 1 },
        Instruction::Coalesce { address: 0, value: 2 },
        Instruction::Jump { address: 0 },
        Instruction::JumpIfTrue { address: 0, value: 2 },
        Instruction::JumpIfFalse { address: 0, value: 2 },
        Instruction::JumpIfNotLessThan { address: 0, lhs: 2, rhs: 3 },
        Instruction::JumpIfNotLessThanOrEqual { address: 0, lhs: 2, rhs: 3 },
        Instruction::JumpIfNotGreaterThan { address: 0, lhs: 2, rhs: 3 },
        Instruction::JumpIfNotGreaterThanOrEqual { address: 0, lhs: 2, rhs: 3 },
        Instruction::JumpIfNotEqual { address: 0, lhs: 2, rhs: 3 },
        Instruction::JumpIfNullOrUndefined { address: 0, value: 2 },
        Instruction::JumpIfNotUndefined { address: 0, value: 2 },
        Instruction::Case { address: 0, value: 2, condition: 3 },
        Instruction::IncrementLoopIteration,
        Instruction::GetName { dst: 1, binding_index: 2 },
        Instruction::GetNameGlobal { dst: 1, binding_index: 2, ic_index: 3 },
        Instruction::GetNameOrUndefined { dst: 1, binding_index: 2 },
        Instruction::GetNameAndLocator { dst: 1, binding_index: 2 },
        Instruction::GetLocator { binding_index: 1 },
        Instruction::SetName { src: 1, binding_index: 2 },
        Instruction::SetNameByLocator { src: 1 },
        Instruction::PutLexicalValue { src: 1, binding_index: 2 },
        Instruction::DefInitVar { src: 1, binding_index: 2 },
        Instruction::DeleteName { dst: 1, binding_index: 2 },
        Instruction::In { dst: 1, lhs: 2, rhs: 3 },
        Instruction::ToPropertyKey { src: 1, dst: 2 },
        Instruction::GetPropertyByName { dst: 1, object: 2, ic_index: 3 },
        Instruction::GetPropertyByNameWithThis { dst: 1, receiver: 2, object: 3, ic_index: 4 },
        Instruction::GetLengthProperty { dst: 1, object: 2, ic_index: 3 },
        Instruction::GetPropertyByValue { dst: 1, key: 2, receiver: 3, object: 4 },
        Instruction::GetPropertyByValuePush { dst: 1, key: 2, receiver: 3, object: 4 },
        Instruction::SetPropertyByValue { value: 1, key: 2, receiver: 3, object: 4 },
        Instruction::SetPropertyByName { value: 1, object: 2, ic_index: 3 },
        Instruction::DefineOwnPropertyByName { object: 1, value: 2, name_index: 3 },
        Instruction::DefineOwnPropertyByValue { value: 1, key: 2, object: 3 },
        Instruction::DeletePropertyByName { object: 1, name_index: 2 },
        Instruction::DeletePropertyByValue { object: 1, key: 2 },
        Instruction::GetPrototype { object: 1 },
        Instruction::SetPrototype { object: 1, prototype: 2 },
        Instruction::StoreLiteral { dst: 1, index: 2 },
        Instruction::StoreEmptyObject { dst: 1 },
        Instruction::StoreNewArray { dst: 1 },
        Instruction::StoreRegexp { dst: 1, pattern_index: 2, flags_index: 3 },
        Instruction::PushValueToArray { value: 1, array: 2 },
        Instruction::PushElisionToArray { array: 1 },
        Instruction::GetFunction { dst: 1, index: 2 },
        Instruction::Call { argument_count: 1 },
        Instruction::New { argument_count: 1 },
        Instruction::PushScope { index: 1 },
        Instruction::CreateUnmappedArgumentsObject { dst: 1 },
        Instruction::RestParameterInit { dst: 1 },
        Instruction::SetRegisterFromAccumulator { dst: 1 },
        Instruction::Throw { src: 1 },
        Instruction::ThrowNewTypeError { message: 1 },
        Instruction::ThrowNewReferenceError { message: 1 },
        Instruction::ThrowMutateImmutable { index: 1 },
        Instruction::CheckReturn,
        Instruction::Return,
    ]
}

#[test]
fn every_supported_instruction_compiles() {
    let mut compiler = JitCompiler::new(addresses()).ok().unwrap();
    let all = supported_instructions();
    assert_eq!(all.len(), 108);
    for instruction in &all {
        let code = code_block(&[*instruction, Instruction::CheckReturn, Instruction::Return]);
        assert!(can_compile(&code));
        // The address of code, not the number of the function.
        let address = compiler.compile(&code).unwrap().unwrap();
        assert!(address > 0x1000, "{instruction:?}");
    }
    // And all of them in one function.
    assert!(compiler.compile(&code_block(&all)).unwrap().is_some());
    assert_eq!(compiler.func_counter() as usize, all.len() + 1);
}

#[test]
fn instructions_are_lowered_to_helper_calls() {
    let call = |instruction| match lower(7, &instruction) {
        Lowering::Call(helper, numbers) => (helper, numbers),
        _ => panic!("no call"),
    };
    assert_eq!(call(Instruction::StoreZero { dst: 5 }), (Helper::StoreZero, vec![5]));
    assert_eq!(call(Instruction::StoreOne { dst: 5 }), (Helper::StoreOne, vec![5]));
    assert_eq!(
        call(Instruction::StoreInt8 { dst: 2, value: -128 }),
        (Helper::StoreInt8, vec![2, -128])
    );
    assert_eq!(
        call(Instruction::StoreInt16 { dst: 3, value: -32768 }),
        (Helper::StoreInt16, vec![3, -32768])
    );
    assert_eq!(
        call(Instruction::StoreInt32 { dst: 4, value: i32::MIN }),
        (Helper::StoreInt32, vec![4, -2147483648])
    );
    assert_eq!(call(Instruction::Move { dst: 5, src: 4 }), (Helper::Move, vec![5, 4]));
    assert_eq!(
        call(Instruction::GetArgument { index: 1, dst: u32::MAX }),
        (Helper::GetArgument, vec![1, 4294967295])
    );
    assert_eq!(
        call(Instruction::SetAccumulator { src: 6 }),
        (Helper::SetAccumulator, vec![6])
    );
    assert_eq!(
        call(Instruction::PushFromRegister { src: 5 }),
        (Helper::PushFromRegister, vec![5])
    );
    assert_eq!(
        call(Instruction::PopIntoRegister { dst: 6 }),
        (Helper::PopIntoRegister, vec![6])
    );
    assert_eq!(
        call(Instruction::StrictEq { dst: 1, lhs: 2, rhs: 3 }),
        (Helper::StrictEq, vec![1, 2, 3])
    );
    assert_eq!(
        call(Instruction::StrictNotEq { dst: 1, lhs: 2, rhs: 3 }),
        (Helper::StrictNotEq, vec![1, 2, 3])
    );
}

#[test]
fn operations_are_lowered_to_their_helpers() {
    let check = |instruction| match lower(7, &instruction) {
        Lowering::Check(helper, numbers) => (helper, numbers),
        _ => panic!("no checked call"),
    };
    let (dst, lhs, rhs) = (1, 2, 3);
    let operators = [
        (Instruction::Add { dst, lhs, rhs }, Helper::Add),
        (Instruction::Sub { dst, lhs, rhs }, Helper::Sub),
        (Instruction::Mul { dst, lhs, rhs }, Helper::Mul),
        (Instruction::Div { dst, lhs, rhs }, Helper::Div),
        (Instruction::Mod { dst, lhs, rhs }, Helper::Mod),
        (Instruction::Pow { dst, lhs, rhs }, Helper::Pow),
        (Instruction::BitOr { dst, lhs, rhs }, Helper::BitOr),
        (Instruction::BitAnd { dst, lhs, rhs }, Helper::BitAnd),
        (Instruction::BitXor { dst, lhs, rhs }, Helper::BitXor),
        (Instruction::ShiftLeft { dst, lhs, rhs }, Helper::ShiftLeft),
        (Instruction::ShiftRight { dst, lhs, rhs }, Helper::ShiftRight),
        (Instruction::UnsignedShiftRight { dst, lhs, rhs }, Helper::UnsignedShiftRight),
        (Instruction::LessThan { dst, lhs, rhs }, Helper::LessThan),
        (Instruction::LessThanOrEq { dst, lhs, rhs }, Helper::LessThanOrEq),
        (Instruction::GreaterThan { dst, lhs, rhs }, Helper::GreaterThan),
        (Instruction::GreaterThanOrEq { dst, lhs, rhs }, Helper::GreaterThanOrEq),
        (Instruction::Eq { dst, lhs, rhs }, Helper::Eq),
        (Instruction::NotEq { dst, lhs, rhs }, Helper::NotEq),
    ];
    for (instruction, helper) in operators {
        assert_eq!(check(instruction), (helper, vec![1, 2, 3]));
    }
    assert_eq!(check(Instruction::Inc { dst: 1, src: 2 }), (Helper::Inc, vec![1, 2]));
    assert_eq!(check(Instruction::Dec { dst: 1, src: 2 }), (Helper::Dec, vec![1, 2]));
    assert_eq!(
        check(Instruction::GetName { dst: 1, binding_index: 2 }),
        (Helper::GetName, vec![1, 2])
    );
    assert_eq!(
        check(Instruction::GetNameGlobal { dst: 1, binding_index: 2, ic_index: 3 }),
        (Helper::GetNameGlobal, vec![1, 2, 3])
    );
    assert_eq!(
        check(Instruction::GetPropertyByName { dst: 1, object: 2, ic_index: 3 }),
        (Helper::GetPropertyByName, vec![1, 2, 3])
    );
    assert_eq!(
        check(Instruction::GetLengthProperty { dst: 1, object: 2, ic_index: 3 }),
        (Helper::GetLengthProperty, vec![1, 2, 3])
    );
    assert_eq!(
        check(Instruction::GetPropertyByValue { dst: 1, key: 2, receiver: 3, object: 4 }),
        (Helper::GetPropertyByValue, vec![1, 2, 3, 4])
    );
    assert_eq!(
        check(Instruction::GetPropertyByValuePush { dst: 1, key: 2, receiver: 3, object: 4 }),
        (Helper::GetPropertyByValuePush, vec![1, 2, 3, 4])
    );
    assert_eq!(
        check(Instruction::SetPropertyByValue { value: 1, key: 2, receiver: 3, object: 4 }),
        (Helper::SetPropertyByValue, vec![1, 2, 3, 4])
    );
    assert_eq!(check(Instruction::Call { argument_count: 5 }), (Helper::Call, vec![5]));
    assert_eq!(
        check(Instruction::IncrementLoopIteration),
        (Helper::IncrementLoopIteration, vec![])
    );
    assert_eq!(check(Instruction::CheckReturn), (Helper::CheckReturn, vec![]));
    // What has no helper of its own is left to the interpreter.
    assert_eq!(check(Instruction::Throw { src: 0 }), (Helper::Interpret, vec![7]));
    assert_eq!(check(Instruction::New { argument_count: 1 }), (Helper::Interpret, vec![7]));
}

#[test]
fn control_flow_is_lowered() {
    let branch = |instruction| match lower(7, &instruction) {
        Lowering::Branch(helper, numbers, address) => (helper, numbers, address),
        _ => panic!("no branch"),
    };
    assert!(matches!(lower(7, &Instruction::Return), Lowering::Finish));
    assert!(matches!(lower(7, &Instruction::Jump { address: 8 }), Lowering::Jump(8)));
    assert_eq!(
        branch(Instruction::JumpIfNotLessThan { address: 9, lhs: 1, rhs: 2 }),
        (Helper::NotLessThan, vec![1, 2], 9)
    );
    assert_eq!(
        branch(Instruction::JumpIfFalse { address: 9, value: 1 }),
        (Helper::Interpret, vec![7], 9)
    );
    assert_eq!(
        branch(Instruction::LogicalAnd { address: 11, value: 1 }),
        (Helper::Interpret, vec![7], 11)
    );
    assert_eq!(
        branch(Instruction::Case { address: 12, value: 1, condition: 2 }),
        (Helper::Interpret, vec![7], 12)
    );
}

#[test]
fn helpers_are_numbered() {
    let mut names = Vec::new();
    for index in 0..HELPER_COUNT {
        let helper = Helper::at(index);
        assert_eq!(helper.number(), index);
        assert!(!names.contains(&helper.name()));
        names.push(helper.name());
    }
    assert_eq!(names.len(), 45);
    assert_eq!(Helper::at(0), Helper::StoreZero);
    assert_eq!(Helper::at(44), Helper::CheckReturnAndReturn);
    assert_eq!(Helper::Add.name(), "jit_add");
    assert_eq!(Helper::Call.name(), "jit_call_inner");
    assert_eq!(Helper::ShiftLeft.name(), "jit_shl");
    assert_eq!((Helper::SetPropertyByValue.operand_count(), Helper::Call.operand_count()), (4, 1));
    assert!(Helper::Add.returns_status());
    assert!(!Helper::Move.returns_status());
    assert!(!Helper::StrictEq.returns_status());
}

#[test]
fn jumps_lead_to_instructions() {
    // Jump is five bytes long, and so is StoreZero.
    let jump = |address| {
        code_block(&[
            Instruction::StoreZero { dst: 0 },
            Instruction::Jump { address },
            Instruction::Return,
        ])
    };
    let mut compiler = JitCompiler::new(addresses()).ok().unwrap();
    for address in [0, 5, 10, 11] {
        let code = jump(address);
        assert!(has_valid_jumps(&code.bytecode), "{address}");
        assert!(compiler.compile(&code).unwrap().is_some());
    }
    for address in [1, 4, 6, 9, 12, u32::MAX] {
        assert!(!has_valid_jumps(&jump(address).bytecode), "{address}");
    }
    assert!(has_valid_jumps(&code_block(&[]).bytecode));
}

#[test]
fn compiled_functions_are_separate() {
    let mut compiler = JitCompiler::new(addresses()).ok().unwrap();
    let one = code_block(&[
        Instruction::StoreOne { dst: 0 },
        Instruction::SetAccumulator { src: 0 },
        Instruction::Return,
    ]);
    let two = code_block(&[Instruction::StoreInt8 { dst: 0, value: 2 }, Instruction::Return]);
    let unsupported = code_block(&[Instruction::Pop, Instruction::Return]);
    let mut seen = Vec::new();
    for _ in 0..12 {
        for code in [&one, &two] {
            let address = compiler.compile(code).unwrap().unwrap();
            assert!(!seen.contains(&address));
            seen.push(address);
        }
        assert_eq!(compiler.compile(&unsupported).unwrap(), None);
        assert_eq!(compiler.func_counter() as usize, seen.len());
    }
}

#[test]
fn code_without_a_return_compiles() {
    let mut compiler = JitCompiler::new(addresses()).ok().unwrap();
    assert!(compiler.compile(&code_block(&[])).unwrap().is_some());
    assert!(compiler.compile(&code_block(&[Instruction::StoreZero { dst: 0 }])).unwrap().is_some());
}

#[test]
fn unsupported_code_is_left_alone() {
    let mut compiler = JitCompiler::new(addresses()).ok().unwrap();
    // Where the jump leads plays no part.
    let code = code_block(&[Instruction::Jump { address: 77 }, Instruction::Pop]);
    assert!(!can_compile(&code));
    assert_eq!(compiler.compile(&code).unwrap(), None);
    assert_eq!(compiler.func_counter(), 0);
}

#[test]
fn missing_host_support_is_reported() {
    let result = JitCompiler::for_host(
        Err(HostError::Unsupported("unsupported architecture")),
        addresses(),
    );
    assert_eq!(
        result.err(),
        Some("host ISA not supported: unsupported architecture".to_string())
    );
}

#[test]
fn refused_settings_are_reported() {
    let error = CodegenError::Unsupported("no such thing".to_string());
    let result = JitCompiler::for_host(Err(HostError::Settings(error)), addresses());
    let text = result.err().unwrap();
    assert!(text.contains("no such thing"), "{text}");
}

#[test]
fn module_builder_of_the_host_is_taken() {
    let builder = JITBuilder::new(cranelift_module::default_libcall_names()).unwrap();
    let mut compiler = JitCompiler::for_host(Ok(builder), addresses()).ok().unwrap();
    assert_eq!(compiler.func_counter(), 0);
    assert!(compiler.compile(&code_block(&[Instruction::Return])).unwrap().is_some());
    assert_eq!(compiler.func_counter(), 1);
}

#[test]
fn function_names_count_up() {
    assert_eq!(jit_function_name(0), "jit_fn_0");
    assert_eq!(jit_function_name(9), "jit_fn_9");
    assert_eq!(jit_function_name(10), "jit_fn_10");
    assert_eq!(jit_function_name(120), "jit_fn_120");
    assert_eq!(jit_function_name(u32::MAX), "jit_fn_4294967295");
}

#[test]
fn supported_operations() {
    assert!(is_supported_opcode(Opcode::Move));
    assert!(is_supported_opcode(Opcode::Return));
    assert!(is_supported_opcode(Opcode::ThrowMutateImmutable));
    assert!(!is_supported_opcode(Opcode::Pop));
    assert!(!is_supported_opcode(Opcode::TypeOf));
    assert!(!is_supported_opcode(Opcode::Other(200)));
    // One such operation anywhere is enough.
    assert!(!can_compile(&code_block(&[Instruction::Return, Instruction::Other { byte: 200 }])));
}
