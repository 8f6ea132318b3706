//! Functions that are compiled when they are defined, and then called.
//!
//! What is compiled runs as native code does: one helper call after the other, as each
//! instruction is lowered. The engine around the helpers is a small one. It knows integers,
//! objects with one property, and functions given as bytecode.

use std::collections::HashMap;
use std::rc::Rc;

use boa_jit::bytecode::BytecodeEmitter;
use boa_jit::code_block::{BindingLocator, CacheEntry, CodeBlock, InlineCache, Slot};
use boa_jit::compiler::{HelperAddresses, JitCompiler};
use boa_jit::helpers::arithmetic::{
    jit_add, jit_bit_or, jit_dec, jit_inc, jit_le, jit_mod, jit_not_less_than, jit_strict_eq,
    jit_sub, BinaryOp, BinaryOperation,
};
use boa_jit::helpers::call::{jit_call, jit_check_return, jit_check_return_and_return};
use boa_jit::helpers::data::{
    jit_get_argument, jit_increment_loop_iteration, jit_move, jit_pop_into_register,
    jit_push_from_register, jit_set_accumulator, jit_store_int16, jit_store_int32, jit_store_int8,
    jit_store_one, jit_store_zero,
};
use boa_jit::helpers::inline_cache::{ic_fast_get, ic_layout, RawObject};
use boa_jit::helpers::interpret::jit_interpret;
use boa_jit::helpers::name::jit_get_name_global;
use boa_jit::helpers::property::{
    jit_get_property_by_name, Heap, JsObject, NamedRequest, PropertyKey,
};
use boa_jit::helpers::refcount::{box_object, gc_pointer, OBJECT_TAG, TAG_MASK};
use boa_jit::helpers::Next;
use boa_jit::instruction::Instruction;
use boa_jit::ir::jump_target;
use boa_jit::jumps::has_valid_jumps;
use boa_jit::support::can_compile;
use boa_jit::translate::{lower, Helper, Lowering};
use boa_jit::value::{CompletionRecord, JsError, JsValue};
use boa_jit::vm::{CallFrame, Vm, FUNCTION_PROLOGUE};

/// The shape of objects like `{x: 1}`.
const SHAPE_X: u64 = 0x5000;

/// The handle of the first function. Objects have the handles below.
const FUNCTIONS: u64 = 1000;

fn helper() {}

/// Addresses for helpers that are linked but never called.
fn helper_addresses() -> HelperAddresses {
    let address = helper as fn() as usize;
    HelperAddresses { addresses: [address; 45] }
}

struct Engine {
    compiler: JitCompiler,
    vm: Vm,
    heap: Heap,
    functions: Vec<Rc<CodeBlock>>,
    /// The addresses of the native code of the functions that were compiled.
    native: Vec<Option<usize>>,
    /// How many calls ran compiled code.
    native_calls: usize,
    strings: Vec<String>,
    /// How often a property was looked up without the inline cache.
    misses: usize,
    /// What the inline caches of a function learned while it was running.
    learned: Vec<(usize, CacheEntry)>,
}

impl Engine {
    fn new() -> Engine {
        let script = CallFrame {
            code_block: Rc::new(CodeBlock::new("script".to_string(), 0, false)),
            rp: FUNCTION_PROLOGUE,
            argument_count: 0,
            loop_iteration_count: 0,
            construct: false,
            exit_early: true,
            this_value_cached: false,
        };
        Engine {
            compiler: JitCompiler::new(helper_addresses()).ok().unwrap(),
            vm: Vm {
                stack: vec![JsValue::Undefined; FUNCTION_PROLOGUE],
                frames: vec![script],
                return_value: JsValue::Undefined,
                pending_exception: None,
                loop_iteration_limit: 0,
            },
            heap: Heap { objects: Vec::new() },
            functions: Vec::new(),
            native: Vec::new(),
            native_calls: 0,
            strings: Vec::new(),
            misses: 0,
            learned: Vec::new(),
        }
    }

    /// Defines a function by its instructions, and compiles it.
    fn define(
        &mut self,
        name: &str,
        registers: u32,
        ic: Vec<InlineCache>,
        bindings: Vec<BindingLocator>,
        instructions: &[Instruction],
    ) -> JsValue {
        let mut emitter = BytecodeEmitter::new();
        for instruction in instructions {
            emitter.emit(*instruction);
        }
        let mut code = CodeBlock::new(name.to_string(), 0, false);
        code.bytecode = emitter.into_bytecode();
        code.register_count = registers;
        code.ic = ic;
        code.bindings = bindings;
        assert!(code.bytecode.is_well_formed());
        assert!(has_valid_jumps(&code.bytecode));
        self.native.push(self.compiler.compile(&code).unwrap());
        self.functions.push(Rc::new(code));
        JsValue::Object(FUNCTIONS + self.functions.len() as u64 - 1)
    }

    fn code(&self, function: JsValue) -> &CodeBlock {
        match function {
            JsValue::Object(handle) => &self.functions[(handle - FUNCTIONS) as usize],
            other => panic!("{other:?} is no function"),
        }
    }

    /// The address of the native code of a function, if it was compiled.
    fn native(&self, function: JsValue) -> Option<usize> {
        match function {
            JsValue::Object(handle) => self.native[(handle - FUNCTIONS) as usize],
            other => panic!("{other:?} is no function"),
        }
    }

    /// Creates `{x: value}`.
    fn object_with_x(&mut self, value: i32) -> JsValue {
        self.heap.objects.push(JsObject {
            shape: SHAPE_X,
            prototype: None,
            storage: vec![JsValue::Integer32(value)],
        });
        JsValue::Object(self.heap.objects.len() as u64 - 1)
    }

    /// Calls a function from the script and returns its result.
    fn call(&mut self, function: JsValue, arguments: &[JsValue]) -> JsValue {
        let depth = self.vm.stack.len();
        self.vm.push(JsValue::Undefined);
        self.vm.push(function);
        for argument in arguments {
            self.vm.push(*argument);
        }
        let code = self.make_call(arguments.len() as u32);
        assert_eq!(code, 0, "should succeed");
        let result = self.vm.pop();
        assert_eq!(self.vm.stack.len(), depth);
        let learned = std::mem::take(&mut self.learned);
        for (ic, entry) in learned {
            let handle = match function {
                JsValue::Object(handle) => handle,
                other => panic!("{other:?} is no function"),
            };
            let block = Rc::get_mut(&mut self.functions[(handle - FUNCTIONS) as usize]).unwrap();
            block.ic[ic].entries.push(entry);
        }
        result
    }

    /// `Call`: the function and the arguments are on the stack, and so is the result.
    fn make_call(&mut self, argument_count: u32) -> u64 {
        let mut reg_base = 0;
        let resolve = match jit_call(&mut self.vm, argument_count, &mut reg_base) {
            Next::Done(code) => return code,
            Next::Ask(resolve) => resolve,
        };
        let code_block = self.functions[(resolve.object - FUNCTIONS) as usize].clone();
        let rp = self.vm.stack.len();
        for _ in 0..code_block.register_count {
            self.vm.push(JsValue::Undefined);
        }
        self.vm.frames.push(CallFrame {
            code_block,
            rp,
            argument_count: argument_count as usize,
            loop_iteration_count: 0,
            construct: false,
            exit_early: false,
            this_value_cached: false,
        });
        let run = match resolve.resume_call(&mut self.vm, Ok(false), &mut reg_base) {
            Next::Done(code) => return code,
            Next::Ask(run) => run,
        };
        let completion = self.run();
        let code = run.resume_call(&mut self.vm, completion, &mut reg_base);
        assert_eq!(reg_base, self.vm.frame().rp);
        code
    }

    /// Runs the function on top of the frames to its return, compiled if it can be.
    fn run(&mut self) -> CompletionRecord {
        let code = self.vm.frame().code_block.clone();
        let function = self.functions.iter().position(|other| Rc::ptr_eq(other, &code)).unwrap();
        if self.native[function].is_some() {
            self.native_calls += 1;
            self.run_compiled(&code)
        } else {
            self.run_interpreted(&code)
        }
    }

    /// Runs compiled code: each instruction as it is lowered.
    fn run_compiled(&mut self, code: &CodeBlock) -> CompletionRecord {
        let instructions = code.bytecode.instructions();
        let mut at = 0;
        loop {
            let (pc, instruction) = instructions[at];
            at += 1;
            match lower(pc, &instruction) {
                Lowering::Call(helper, numbers) => {
                    self.call_helper(helper, &numbers);
                }
                Lowering::Check(helper, numbers) => {
                    assert_eq!(self.call_helper(helper, &numbers), 0);
                }
                Lowering::Branch(helper, numbers, address) => {
                    match self.call_helper(helper, &numbers) {
                        0 => {}
                        1 => at = position(&instructions, address),
                        code => panic!("{code}"),
                    }
                }
                Lowering::Jump(address) => at = position(&instructions, address),
                Lowering::Finish => {
                    assert_eq!(jit_check_return_and_return(&mut self.vm), 1);
                    return CompletionRecord::Return(self.vm.take_return_value());
                }
            }
        }
    }

    /// Runs the interpreter.
    fn run_interpreted(&mut self, code: &CodeBlock) -> CompletionRecord {
        let instructions = code.bytecode.instructions();
        let mut at = 0;
        loop {
            let (_, instruction) = instructions[at];
            at += 1;
            if let Instruction::Return = instruction {
                assert_eq!(jit_check_return_and_return(&mut self.vm), 1);
                return CompletionRecord::Return(self.vm.take_return_value());
            }
            if self.interpret(instruction).unwrap() {
                at = position(&instructions, jump_target(&instruction).unwrap());
            }
        }
    }

    /// Calls a helper with numbers, and returns its status, or 0 if it has none.
    fn call_helper(&mut self, helper: Helper, numbers: &[i64]) -> u64 {
        assert_eq!(numbers.len(), helper.operand_count() as usize);
        let number = |index: usize| numbers[index] as u32;
        match helper {
            Helper::StoreZero => jit_store_zero(&mut self.vm, number(0)),
            Helper::StoreOne => jit_store_one(&mut self.vm, number(0)),
            Helper::StoreInt8 => jit_store_int8(&mut self.vm, number(0), numbers[1] as i8),
            Helper::StoreInt16 => jit_store_int16(&mut self.vm, number(0), numbers[1] as i16),
            Helper::StoreInt32 => jit_store_int32(&mut self.vm, number(0), numbers[1] as i32),
            Helper::Move => jit_move(&mut self.vm, number(0), number(1)),
            Helper::GetArgument => jit_get_argument(&mut self.vm, number(0), number(1)),
            Helper::SetAccumulator => jit_set_accumulator(&mut self.vm, number(0)),
            Helper::PushFromRegister => jit_push_from_register(&mut self.vm, number(0)),
            Helper::PopIntoRegister => jit_pop_into_register(&mut self.vm, number(0)),
            Helper::StrictEq => {
                let request = jit_strict_eq(&self.vm, number(0), number(1), number(2));
                request.resume(&mut self.vm, request.lhs == request.rhs);
            }
            Helper::Add => {
                let request = jit_add(&self.vm, number(0), number(1), number(2));
                return self.operate(request);
            }
            Helper::Sub => {
                let request = jit_sub(&self.vm, number(0), number(1), number(2));
                return self.operate(request);
            }
            Helper::Mod => {
                let request = jit_mod(&self.vm, number(0), number(1), number(2));
                return self.operate(request);
            }
            Helper::BitOr => {
                let request = jit_bit_or(&self.vm, number(0), number(1), number(2));
                return self.operate(request);
            }
            Helper::LessThanOrEq => {
                let request = jit_le(&self.vm, number(0), number(1), number(2));
                return self.operate(request);
            }
            Helper::Inc => return done(jit_inc(&mut self.vm, number(0), number(1))),
            Helper::Dec => return done(jit_dec(&mut self.vm, number(0), number(1))),
            Helper::NotLessThan => {
                let request = jit_not_less_than(&self.vm, number(0), number(1));
                let less = integer(request.lhs) < integer(request.rhs);
                return done(request.fast(Some(less)));
            }
            Helper::GetNameGlobal => return self.look_up(number(0), number(1), number(2)),
            Helper::GetPropertyByName => {
                return self.get_property(number(0), number(1), number(2));
            }
            Helper::Call => return self.make_call(number(0)),
            Helper::IncrementLoopIteration => return jit_increment_loop_iteration(&mut self.vm),
            Helper::Interpret => return self.interpret_at(number(0)),
            Helper::CheckReturn => return done(jit_check_return(&mut self.vm)),
            other => panic!("{other:?} is not part of these functions"),
        }
        0
    }

    /// The helper that has the interpreter carry out one instruction.
    fn interpret_at(&mut self, pc: u32) -> u64 {
        let request = jit_interpret(&self.vm, pc);
        let jumps = self.interpret(request.instruction);
        request.resume(&mut self.vm, jumps)
    }

    /// Carries out one instruction, and tells whether it jumps.
    fn interpret(&mut self, instruction: Instruction) -> Result<bool, JsError> {
        let mut jumps = false;
        let code = match instruction {
            Instruction::StoreZero { dst } => {
                jit_store_zero(&mut self.vm, dst);
                0
            }
            Instruction::StoreOne { dst } => {
                jit_store_one(&mut self.vm, dst);
                0
            }
            Instruction::StoreInt8 { dst, value } => {
                jit_store_int8(&mut self.vm, dst, value);
                0
            }
            Instruction::StoreInt16 { dst, value } => {
                jit_store_int16(&mut self.vm, dst, value);
                0
            }
            Instruction::StoreInt32 { dst, value } => {
                jit_store_int32(&mut self.vm, dst, value);
                0
            }
            Instruction::StoreUndefined { dst } => {
                self.vm.set_register(dst, JsValue::Undefined);
                0
            }
            Instruction::Move { dst, src } => {
                jit_move(&mut self.vm, dst, src);
                0
            }
            Instruction::GetArgument { index, dst } => {
                jit_get_argument(&mut self.vm, index, dst);
                0
            }
            Instruction::SetAccumulator { src } => {
                jit_set_accumulator(&mut self.vm, src);
                0
            }
            Instruction::PushFromRegister { src } => {
                jit_push_from_register(&mut self.vm, src);
                0
            }
            Instruction::PopIntoRegister { dst } => {
                jit_pop_into_register(&mut self.vm, dst);
                0
            }
            Instruction::Add { dst, lhs, rhs } => {
                let request = jit_add(&self.vm, dst, lhs, rhs);
                self.operate(request)
            }
            Instruction::Sub { dst, lhs, rhs } => {
                let request = jit_sub(&self.vm, dst, lhs, rhs);
                self.operate(request)
            }
            Instruction::Mod { dst, lhs, rhs } => {
                let request = jit_mod(&self.vm, dst, lhs, rhs);
                self.operate(request)
            }
            Instruction::BitOr { dst, lhs, rhs } => {
                let request = jit_bit_or(&self.vm, dst, lhs, rhs);
                self.operate(request)
            }
            Instruction::LessThanOrEq { dst, lhs, rhs } => {
                let request = jit_le(&self.vm, dst, lhs, rhs);
                self.operate(request)
            }
            Instruction::StrictEq { dst, lhs, rhs } => {
                let request = jit_strict_eq(&self.vm, dst, lhs, rhs);
                let equal = request.lhs == request.rhs;
                request.resume(&mut self.vm, equal);
                0
            }
            Instruction::Inc { dst, src } => done(jit_inc(&mut self.vm, dst, src)),
            Instruction::Dec { dst, src } => done(jit_dec(&mut self.vm, dst, src)),
            Instruction::TypeOf { value } => {
                let name = match self.vm.get_register(value) {
                    JsValue::Integer32(_) | JsValue::Float64(_) => "number",
                    other => panic!("{other:?}"),
                };
                self.strings.push(name.to_string());
                let handle = self.strings.len() as u64 - 1;
                self.vm.set_register(value, JsValue::String(handle));
                0
            }
            Instruction::IncrementLoopIteration => jit_increment_loop_iteration(&mut self.vm),
            Instruction::Jump { .. } => {
                jumps = true;
                0
            }
            Instruction::JumpIfFalse { value, .. } => {
                if self.vm.get_register(value) == JsValue::Boolean(false) {
                    jumps = true;
                }
                0
            }
            Instruction::JumpIfNotLessThan { lhs, rhs, .. } => {
                let request = jit_not_less_than(&self.vm, lhs, rhs);
                let less = integer(request.lhs) < integer(request.rhs);
                jumps = done(request.fast(Some(less))) == 1;
                0
            }
            Instruction::GetNameGlobal { dst, binding_index, ic_index } => {
                self.look_up(dst, binding_index, ic_index)
            }
            Instruction::GetPropertyByName { dst, object, ic_index } => {
                self.get_property(dst, object, ic_index)
            }
            Instruction::Call { argument_count } => self.make_call(argument_count),
            Instruction::CheckReturn => done(jit_check_return(&mut self.vm)),
            other => panic!("{other:?} is not part of these functions"),
        };
        assert_eq!(code, 0);
        Ok(jumps)
    }

    /// Answers the lookup of a function by its name.
    fn look_up(&mut self, dst: u32, binding_index: u32, ic_index: u32) -> u64 {
        let request = jit_get_name_global(&self.vm, dst, binding_index, ic_index);
        let locator = BindingLocator {
            name: request.locator.name.clone(),
            location: request.locator.location,
        };
        let value = self
            .functions
            .iter()
            .position(|code| code.name == locator.name)
            .map(|index| JsValue::Object(FUNCTIONS + index as u64));
        match request.on_found(&mut self.vm, Ok(locator)) {
            Next::Ask(read) => read.resume(&mut self.vm, Ok(value)),
            Next::Done(code) => code,
        }
    }

    /// Answers a binary operation on integers.
    fn operate(&mut self, request: BinaryOperation) -> u64 {
        let (l, r) = (integer(request.lhs), integer(request.rhs));
        let value = match request.op {
            BinaryOp::Add => JsValue::Integer32(l.checked_add(r).unwrap()),
            BinaryOp::Sub => JsValue::Integer32(l.checked_sub(r).unwrap()),
            BinaryOp::Mod => JsValue::Integer32(l % r),
            BinaryOp::BitOr => JsValue::Integer32(l | r),
            BinaryOp::LessThanOrEq => JsValue::Boolean(l <= r),
            other => panic!("{other:?}"),
        };
        match request.fast(&mut self.vm, Some(value)) {
            Next::Done(code) => code,
            Next::Ask(request) => request.slow(&mut self.vm, Ok(value)),
        }
    }

    /// Answers a property access, and fills the inline cache.
    fn get_property(&mut self, dst: u32, object: u32, ic_index: u32) -> u64 {
        match jit_get_property_by_name(&mut self.vm, &self.heap, dst, object, ic_index) {
            Next::Done(code) => code,
            Next::Ask(NamedRequest::Get(get)) => {
                assert!(matches!(&get.key, PropertyKey::Named(name) if name == "x"));
                let found = &self.heap.objects[get.object as usize];
                let entry = CacheEntry {
                    shape: found.shape,
                    slot: Slot { index: 0, prototype: false, get: false },
                };
                self.misses += 1;
                self.learned.push((ic_index as usize, entry));
                let value = found.storage[0];
                get.resume(&mut self.vm, Ok(value))
            }
            Next::Ask(other) => panic!("{other:?}"),
        }
    }
}

/// The status of a helper that asks for nothing.
fn done<Request>(next: Next<Request>) -> u64 {
    match next {
        Next::Done(code) => code,
        Next::Ask(_) => panic!("the helper should be done"),
    }
}

/// The number of the instruction at an address.
fn position(instructions: &[(u32, Instruction)], address: u32) -> usize {
    instructions.iter().position(|(pc, _)| *pc == address).unwrap()
}

fn integer(value: JsValue) -> i32 {
    match value {
        JsValue::Integer32(number) => number,
        other => panic!("{other:?} should be number"),
    }
}

fn number(value: JsValue) -> f64 {
    f64::from(integer(value))
}

/// Where each instruction starts, and where the last one ends.
fn addresses(instructions: &[Instruction]) -> Vec<u32> {
    let mut emitter = BytecodeEmitter::new();
    let mut found = vec![0];
    for instruction in instructions {
        emitter.emit(*instruction);
        found.push(emitter.next_pc() as u32);
    }
    found
}

fn property_x() -> Vec<InlineCache> {
    vec![InlineCache { name: "x".to_string(), entries: Vec::new() }]
}

/// `function get_x(obj) { return obj.x; }`
fn define_get_x(engine: &mut Engine) -> JsValue {
    engine.define(
        "get_x",
        2,
        property_x(),
        Vec::new(),
        &[
            Instruction::GetArgument { index: 0, dst: 0 },
            Instruction::GetPropertyByName { dst: 1, object: 0, ic_index: 0 },
            Instruction::SetAccumulator { src: 1 },
            Instruction::CheckReturn,
            Instruction::Return,
        ],
    )
}

/// A simple function that returns a constant produces the correct result.
#[test]
fn end_to_end_jit_return_constant() {
    let mut engine = Engine::new();

    // function f() { return 42; }
    let f = engine.define(
        "f",
        1,
        Vec::new(),
        Vec::new(),
        &[
            Instruction::StoreInt8 { dst: 0, value: 42 },
            Instruction::SetAccumulator { src: 0 },
            Instruction::CheckReturn,
            Instruction::Return,
        ],
    );
    assert!(can_compile(engine.code(f)));
    assert!(engine.native(f).is_some(), "f should compile");

    let mut value = JsValue::Undefined;
    for _ in 0..20 {
        value = engine.call(f, &[]);
    }
    assert_eq!(
        number(value),
        42.0,
        "JIT'd function should return 42"
    );
    assert_eq!(engine.native_calls, 20);
}

/// Function with arguments and addition.
#[test]
fn end_to_end_jit_add() {
    let mut engine = Engine::new();

    // function add(a, b) { return a + b; }
    let add = engine.define(
        "add",
        3,
        Vec::new(),
        Vec::new(),
        &[
            Instruction::GetArgument { index: 0, dst: 0 },
            Instruction::GetArgument { index: 1, dst: 1 },
            Instruction::Add { dst: 2, lhs: 0, rhs: 1 },
            Instruction::SetAccumulator { src: 2 },
            Instruction::CheckReturn,
            Instruction::Return,
        ],
    );
    assert!(can_compile(engine.code(add)));
    assert!(engine.native(add).is_some(), "add should compile");

    let mut value = JsValue::Undefined;
    for _ in 0..20 {
        value = engine.call(add, &[JsValue::Integer32(1), JsValue::Integer32(2)]);
    }
    assert_eq!(
        number(value),
        3.0,
        "JIT'd add function should return 3"
    );
    assert_eq!(engine.native_calls, 20);
}

/// Function with a loop.
#[test]
fn end_to_end_jit_sum_loop() {
    let mut engine = Engine::new();

    // function sum(n) {
    //   var s = 0;
    //   for (var i = 0; i < n; i++) {
    //     s = (s + i) | 0;
    //   }
    //   return s;
    // }
    let mut code = vec![
        Instruction::GetArgument { index: 0, dst: 0 },
        Instruction::StoreZero { dst: 1 },
        Instruction::StoreZero { dst: 2 },
        Instruction::IncrementLoopIteration,
        Instruction::JumpIfNotLessThan { address: 0, lhs: 2, rhs: 0 },
        Instruction::Add { dst: 3, lhs: 1, rhs: 2 },
        Instruction::StoreZero { dst: 4 },
        Instruction::BitOr { dst: 1, lhs: 3, rhs: 4 },
        Instruction::Inc { dst: 2, src: 2 },
        Instruction::Jump { address: 0 },
        Instruction::SetAccumulator { src: 1 },
        Instruction::CheckReturn,
        Instruction::Return,
    ];
    let at = addresses(&code);
    code[4] = Instruction::JumpIfNotLessThan { address: at[10], lhs: 2, rhs: 0 };
    code[9] = Instruction::Jump { address: at[3] };
    let sum = engine.define("sum", 5, Vec::new(), Vec::new(), &code);
    assert!(can_compile(engine.code(sum)));
    assert!(engine.native(sum).is_some(), "sum should compile");

    let mut value = JsValue::Undefined;
    for _ in 0..20 {
        value = engine.call(sum, &[JsValue::Integer32(100)]);
    }
    assert_eq!(
        number(value),
        4950.0,
        "JIT'd sum(100) should return 4950"
    );
    assert_eq!(engine.native_calls, 20);
}

/// Functions with unsupported operations still work via the interpreter.
#[test]
fn unsupported_falls_back_to_interpreter() {
    let mut engine = Engine::new();

    // function check(x) { return typeof x; }
    let check = engine.define(
        "check",
        1,
        Vec::new(),
        Vec::new(),
        &[
            Instruction::GetArgument { index: 0, dst: 0 },
            Instruction::TypeOf { value: 0 },
            Instruction::SetAccumulator { src: 0 },
            Instruction::CheckReturn,
            Instruction::Return,
        ],
    );

    // TypeOf is not supported.
    assert!(!can_compile(engine.code(check)));
    assert_eq!(engine.native(check), None);

    let mut value = JsValue::Undefined;
    for _ in 0..20 {
        value = engine.call(check, &[JsValue::Integer32(42)]);
    }
    let s = match value {
        JsValue::String(handle) => engine.strings[handle as usize].clone(),
        other => panic!("{other:?} should be string"),
    };
    assert_eq!(s, "number", "interpreted function should still work");
    assert_eq!(engine.native_calls, 0);
}

/// The inline cache has data at compilation time, and the cached shape matches runtime
/// objects.
#[test]
fn ic_data_available_at_compile_time() {
    let mut engine = Engine::new();

    // Define get_x and call it 9 times (below JIT threshold of 10).
    let get_x = define_get_x(&mut engine);
    for i in 0..9 {
        let object = engine.object_with_x(i);
        engine.call(get_x, &[object]);
    }

    // Check the IC state after 9 interpreter calls.
    let cached_shape = {
        let ic = &engine.code(get_x).ic;
        assert!(!ic.is_empty(), "IC should have entries");
        let first_ic = &ic[0];
        assert_eq!(first_ic.name, "x");
        assert!(!first_ic.entries.is_empty(), "IC[0] should have cached shapes after 9 calls");
        let cached_shape = first_ic.entries[0].shape;
        assert!(first_ic.get(cached_shape).is_some(), "cached shape should still be alive");
        cached_shape
    };

    // Now create a fresh object like the ones that are passed at runtime.
    let runtime_shape = match engine.object_with_x(99) {
        JsValue::Object(handle) => engine.heap.objects[handle as usize].shape,
        other => panic!("{other:?}"),
    };
    assert_eq!(cached_shape, runtime_shape);
    assert!(can_compile(engine.code(get_x)));
}

/// The inline cache fires and produces correct results.
#[test]
fn inline_ic_produces_correct_result() {
    let mut engine = Engine::new();
    let get_x = define_get_x(&mut engine);

    // Populate IC with 9 interpreter calls
    for i in 0..9 {
        let object = engine.object_with_x(i);
        engine.call(get_x, &[object]);
    }
    // 10th call triggers JIT compilation
    let object = engine.object_with_x(100);
    engine.call(get_x, &[object]);
    let misses = engine.misses;
    // 11th+ calls use JIT'd code with inline IC
    let mut results = Vec::new();
    for i in 0..10 {
        let object = engine.object_with_x(i * 10);
        results.push(engine.call(get_x, &[object]));
    }

    assert_eq!(
        number(results[5]),
        50.0,
        "inline IC should return correct property value"
    );
    assert_eq!(misses, 1);
    assert_eq!(engine.misses, misses);
}

/// The layout that inline caching rests on, and its fast path.
#[test]
fn ic_layout_and_fast_path() {
    let pointer = 0x7F12_3456_7890;
    let raw = box_object(pointer);
    assert_eq!(gc_pointer(raw), pointer);

    let layout = ic_layout(raw, pointer + 24, pointer - 8);
    assert_eq!(layout.shape_offset, 24);
    assert_eq!(layout.storage_offset, -8);

    let mut objects = HashMap::new();
    objects.insert(pointer, RawObject { shape: 0x9000, storage: vec![11, 22] });
    assert_eq!(ic_fast_get(&objects, raw, 0x9000, 1), Some(22));
    // Another shape, no such slot, no object, nothing at that pointer.
    assert_eq!(ic_fast_get(&objects, raw, 0x9001, 1), None);
    assert_eq!(ic_fast_get(&objects, raw, 0x9000, 2), None);
    assert_eq!(ic_fast_get(&objects, pointer, 0x9000, 1), None);
    assert_eq!(ic_fast_get(&objects, box_object(pointer + 8), 0x9000, 1), None);
}

/// The fast path works on objects with a cached shape.
#[test]
fn ic_fast_get_works_on_eval_objects() {
    let mut engine = Engine::new();

    // Create object and populate IC via interpreter.
    let get_x = define_get_x(&mut engine);
    for i in 0..9 {
        let object = engine.object_with_x(i);
        engine.call(get_x, &[object]);
    }

    // Get the IC data.
    let entry = engine.code(get_x).ic[0].entries[0];
    let slot_index = entry.slot.index;
    let shape_addr = entry.shape;
    let cached_shape_ptr = shape_addr - 16; // subtract GcHeader

    // Create a test object, ({x: 42}), as it lies in memory.
    let expected_bits = 0x7FF8_0000_0000_002A;
    let pointer = 0x6000_1000;
    let mut objects = HashMap::new();
    objects.insert(
        pointer,
        RawObject { shape: cached_shape_ptr, storage: vec![expected_bits] },
    );
    let raw_bits = box_object(pointer);

    // Verify it's an object.
    let tag = raw_bits & TAG_MASK;
    assert_eq!(TAG_MASK, 0x7FFF_0000_0000_0000);
    assert_eq!(tag, 0x7FFC_0000_0000_0000, "should be object");
    assert_eq!(tag, OBJECT_TAG);

    // Test ic_fast_get.
    let result = ic_fast_get(&objects, raw_bits, cached_shape_ptr, slot_index);
    assert!(result.is_some(), "IC fast path should hit for same-shape object");

    let val_bits = result.unwrap();
    assert_eq!(val_bits, expected_bits, "should be NaN-boxed 42");
}

/// Property access by name.
#[test]
fn end_to_end_jit_property_access() {
    let mut engine = Engine::new();
    let get_x = define_get_x(&mut engine);
    assert!(can_compile(engine.code(get_x)));
    assert!(engine.native(get_x).is_some(), "get_x should compile");

    let mut value = JsValue::Undefined;
    for _ in 0..20 {
        let object = engine.object_with_x(42);
        value = engine.call(get_x, &[object]);
    }
    assert_eq!(
        number(value),
        42.0,
        "JIT'd property access should work"
    );
    assert_eq!(engine.native_calls, 20);
}

/// Function with branches, modulo, strict equality, and decrement.
#[test]
fn end_to_end_jit_branchy_loop() {
    let mut engine = Engine::new();

    // function test(n) {
    //   var count = 0;
    //   for (var i = 0; i < n; i++) {
    //     if (i % 3 === 0) count++;
    //     else if (i % 5 === 0) count--;
    //     else count = (count + i) | 0;
    //   }
    //   return count;
    // }
    let mut code = vec![
        Instruction::GetArgument { index: 0, dst: 0 },
        Instruction::StoreZero { dst: 1 },
        Instruction::StoreZero { dst: 2 },
        Instruction::IncrementLoopIteration,
        Instruction::JumpIfNotLessThan { address: 0, lhs: 2, rhs: 0 },
        // i % 3 === 0
        Instruction::StoreInt8 { dst: 3, value: 3 },
        Instruction::Mod { dst: 4, lhs: 2, rhs: 3 },
        Instruction::StoreZero { dst: 5 },
        Instruction::StrictEq { dst: 6, lhs: 4, rhs: 5 },
        Instruction::JumpIfFalse { address: 0, value: 6 },
        Instruction::Inc { dst: 1, src: 1 },
        Instruction::Jump { address: 0 },
        // i % 5 === 0
        Instruction::StoreInt16 { dst: 3, value: 5 },
        Instruction::Mod { dst: 4, lhs: 2, rhs: 3 },
        Instruction::StrictEq { dst: 6, lhs: 4, rhs: 5 },
        Instruction::JumpIfFalse { address: 0, value: 6 },
        Instruction::Dec { dst: 1, src: 1 },
        Instruction::Jump { address: 0 },
        // (count + i) | 0
        Instruction::Add { dst: 4, lhs: 1, rhs: 2 },
        Instruction::BitOr { dst: 1, lhs: 4, rhs: 5 },
        // i++
        Instruction::Inc { dst: 2, src: 2 },
        Instruction::Jump { address: 0 },
        Instruction::SetAccumulator { src: 1 },
        Instruction::CheckReturn,
        Instruction::Return,
    ];
    let at = addresses(&code);
    code[4] = Instruction::JumpIfNotLessThan { address: at[22], lhs: 2, rhs: 0 };
    code[9] = Instruction::JumpIfFalse { address: at[12], value: 6 };
    code[11] = Instruction::Jump { address: at[20] };
    code[15] = Instruction::JumpIfFalse { address: at[18], value: 6 };
    code[17] = Instruction::Jump { address: at[20] };
    code[21] = Instruction::Jump { address: at[3] };
    let test = engine.define("test", 7, Vec::new(), Vec::new(), &code);
    assert!(can_compile(engine.code(test)));
    assert!(engine.native(test).is_some(), "test should compile");

    let mut value = JsValue::Undefined;
    for _ in 0..20 {
        value = engine.call(test, &[JsValue::Integer32(100)]);
    }
    // Verify against known result.
    let expected: i32 = {
        let mut count = 0i32;
        for i in 0..100 {
            if i % 3 == 0 {
                count += 1;
            } else if i % 5 == 0 {
                count -= 1;
            } else {
                count = count.wrapping_add(i);
            }
        }
        count
    };
    assert_eq!(
        number(value),
        f64::from(expected),
        "JIT'd branchy function should produce correct result"
    );
    assert_eq!(engine.native_calls, 20);
}

/// Recursive fibonacci with Call and GetNameGlobal.
#[test]
fn end_to_end_jit_fib() {
    let mut engine = Engine::new();

    // function fib(n) { if (n <= 1) return n; return fib(n-1) + fib(n-2); }
    let mut code = vec![
        Instruction::GetArgument { index: 0, dst: 0 },
        Instruction::StoreOne { dst: 1 },
        Instruction::LessThanOrEq { dst: 2, lhs: 0, rhs: 1 },
        Instruction::JumpIfFalse { address: 0, value: 2 },
        Instruction::SetAccumulator { src: 0 },
        Instruction::CheckReturn,
        Instruction::Return,
        // fib(n-1)
        Instruction::StoreUndefined { dst: 3 },
        Instruction::GetNameGlobal { dst: 4, binding_index: 0, ic_index: 0 },
        Instruction::Sub { dst: 5, lhs: 0, rhs: 1 },
        Instruction::PushFromRegister { src: 3 },
        Instruction::PushFromRegister { src: 4 },
        Instruction::PushFromRegister { src: 5 },
        Instruction::Call { argument_count: 1 },
        Instruction::PopIntoRegister { dst: 6 },
        // fib(n-2)
        Instruction::StoreInt8 { dst: 1, value: 2 },
        Instruction::Sub { dst: 5, lhs: 0, rhs: 1 },
        Instruction::PushFromRegister { src: 3 },
        Instruction::PushFromRegister { src: 4 },
        Instruction::PushFromRegister { src: 5 },
        Instruction::Call { argument_count: 1 },
        Instruction::PopIntoRegister { dst: 5 },
        Instruction::Add { dst: 6, lhs: 6, rhs: 5 },
        Instruction::SetAccumulator { src: 6 },
        Instruction::CheckReturn,
        Instruction::Return,
    ];
    let at = addresses(&code);
    code[3] = Instruction::JumpIfFalse { address: at[7], value: 2 };
    let locator = BindingLocator { name: "fib".to_string(), location: 0 };
    let fib = engine.define("fib", 7, Vec::new(), vec![locator], &code);
    assert!(can_compile(engine.code(fib)));
    assert!(engine.native(fib).is_some(), "fib should compile");

    let mut value = JsValue::Undefined;
    for _ in 0..20 {
        value = engine.call(fib, &[JsValue::Integer32(10)]);
    }
    assert_eq!(
        number(value),
        55.0,
        "JIT'd fib(10) should return 55"
    );
    // fib(10) makes 177 calls in all.
    assert_eq!(engine.native_calls, 20 * 177);
}
