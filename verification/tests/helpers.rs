//! The runtime helpers, one by one.

use std::rc::Rc;

use boa_jit::bytecode::BytecodeEmitter;
use boa_jit::code_block::{BindingLocator, CacheEntry, CodeBlock, InlineCache, Slot};
use boa_jit::helpers::arithmetic::{
    jit_add, jit_bit_and, jit_bit_or, jit_bit_xor, jit_dec, jit_div, jit_eq, jit_ge, jit_gt,
    jit_inc, jit_le, jit_lt, jit_mod, jit_mul, jit_ne, jit_not_less_than, jit_pow, jit_shl,
    jit_shr, jit_strict_eq, jit_strict_ne, jit_sub, jit_ushr, BinaryOp, Numeric, ToNumeric,
};
use boa_jit::helpers::call::{
    jit_call, jit_call_inner, jit_check_return, jit_check_return_and_return, ResolveCall,
    RunCallee, ThisBinding,
};
use boa_jit::helpers::data::{
    jit_get_argument, jit_increment_loop_iteration, jit_move, jit_pop_into_register,
    jit_push_from_register, jit_set_accumulator, jit_store_int16, jit_store_int32, jit_store_int8,
    jit_store_one, jit_store_zero,
};
use boa_jit::helpers::interpret::jit_interpret;
use boa_jit::helpers::name::{jit_get_name, jit_get_name_global, Missing};
use boa_jit::helpers::property::{
    jit_get_length_property, jit_get_property_by_name, jit_get_property_by_value,
    jit_get_property_by_value_push, jit_set_property_by_value, GetterCall, Heap, JsObject,
    NamedGet, NamedRequest, PropertyKey,
};
use boa_jit::helpers::refcount::{box_object, jit_clone_value, jit_drop_value, RefCounts};
use boa_jit::helpers::Next;
use boa_jit::instruction::Instruction;
use boa_jit::value::{CompletionRecord, ErrorKind, JsError, JsValue};
use boa_jit::vm::{CallFrame, Vm};

fn frame(rp: usize, argument_count: usize) -> CallFrame {
    CallFrame {
        code_block: Rc::new(CodeBlock::new("test".to_string(), 0, false)),
        rp,
        argument_count,
        loop_iteration_count: 0,
        construct: false,
        exit_early: false,
        this_value_cached: false,
    }
}

/// A call with arguments 7 and 8, and four registers.
fn machine() -> Vm {
    Vm {
        stack: vec![
            JsValue::Undefined,
            JsValue::Object(1),
            JsValue::Integer32(7),
            JsValue::Integer32(8),
            JsValue::Undefined,
            JsValue::Undefined,
            JsValue::Undefined,
            JsValue::Undefined,
        ],
        frames: vec![frame(4, 2)],
        return_value: JsValue::Undefined,
        pending_exception: None,
        loop_iteration_limit: 0,
    }
}

fn thrown(number: i32) -> JsError {
    JsError::Thrown(JsValue::Integer32(number))
}

fn pending(vm: &Vm) -> i32 {
    match &vm.pending_exception {
        Some(JsError::Thrown(JsValue::Integer32(number))) => *number,
        other => panic!("{other:?}"),
    }
}

fn native(vm: &Vm) -> (ErrorKind, String) {
    match &vm.pending_exception {
        Some(JsError::Native { kind, message }) => (*kind, message.clone()),
        other => panic!("{other:?}"),
    }
}

#[test]
fn constants_and_moves() {
    let mut vm = machine();
    jit_store_zero(&mut vm, 0);
    jit_store_one(&mut vm, 1);
    jit_store_int8(&mut vm, 2, -128);
    jit_move(&mut vm, 3, 2);
    assert_eq!(
        vm.stack[4..],
        [
            JsValue::Integer32(0),
            JsValue::Integer32(1),
            JsValue::Integer32(-128),
            JsValue::Integer32(-128)
        ]
    );
    jit_store_int16(&mut vm, 2, i16::MIN);
    jit_store_int32(&mut vm, 3, i32::MAX);
    assert_eq!(vm.get_register(2), JsValue::Integer32(-32768));
    assert_eq!(vm.get_register(3), JsValue::Integer32(2147483647));
    jit_set_accumulator(&mut vm, 3);
    assert_eq!(vm.return_value, JsValue::Integer32(2147483647));
}

#[test]
fn push_then_pop_moves_a_register() {
    let mut vm = machine();
    jit_store_int8(&mut vm, 1, 9);
    jit_push_from_register(&mut vm, 1);
    assert_eq!(vm.stack.len(), 9);
    jit_pop_into_register(&mut vm, 3);
    assert_eq!(vm.stack.len(), 8);
    assert_eq!(vm.get_register(3), JsValue::Integer32(9));
}

#[test]
fn arguments_that_were_not_passed_are_undefined() {
    let mut vm = machine();
    jit_store_one(&mut vm, 2);
    jit_get_argument(&mut vm, 0, 0);
    jit_get_argument(&mut vm, 1, 1);
    jit_get_argument(&mut vm, 2, 2);
    assert_eq!(vm.get_register(0), JsValue::Integer32(7));
    assert_eq!(vm.get_register(1), JsValue::Integer32(8));
    assert_eq!(vm.get_register(2), JsValue::Undefined);
}

#[test]
fn loops_stop_at_the_limit() {
    let mut vm = machine();
    vm.loop_iteration_limit = 2;
    assert_eq!(jit_increment_loop_iteration(&mut vm), 0);
    assert_eq!(jit_increment_loop_iteration(&mut vm), 0);
    assert_eq!(jit_increment_loop_iteration(&mut vm), 1);
    assert_eq!(vm.frame().loop_iteration_count, 3);
    assert!(matches!(vm.pending_exception, Some(JsError::LoopIterationLimit)));
    // Without a limit a loop goes on.
    vm.loop_iteration_limit = 0;
    assert_eq!(jit_increment_loop_iteration(&mut vm), 0);
}

#[test]
fn binary_operators_ask_for_their_operation() {
    let mut vm = machine();
    jit_get_argument(&mut vm, 0, 0);
    jit_get_argument(&mut vm, 1, 1);
    let requests = vec![
        (jit_add(&vm, 2, 0, 1), BinaryOp::Add),
        (jit_sub(&vm, 2, 0, 1), BinaryOp::Sub),
        (jit_mul(&vm, 2, 0, 1), BinaryOp::Mul),
        (jit_div(&vm, 2, 0, 1), BinaryOp::Div),
        (jit_mod(&vm, 2, 0, 1), BinaryOp::Mod),
        (jit_pow(&vm, 2, 0, 1), BinaryOp::Pow),
        (jit_bit_or(&vm, 2, 0, 1), BinaryOp::BitOr),
        (jit_bit_and(&vm, 2, 0, 1), BinaryOp::BitAnd),
        (jit_bit_xor(&vm, 2, 0, 1), BinaryOp::BitXor),
        (jit_shl(&vm, 2, 0, 1), BinaryOp::ShiftLeft),
        (jit_shr(&vm, 2, 0, 1), BinaryOp::ShiftRight),
        (jit_ushr(&vm, 2, 0, 1), BinaryOp::UnsignedShiftRight),
        (jit_lt(&vm, 2, 0, 1), BinaryOp::LessThan),
        (jit_le(&vm, 2, 0, 1), BinaryOp::LessThanOrEq),
        (jit_gt(&vm, 2, 0, 1), BinaryOp::GreaterThan),
        (jit_ge(&vm, 2, 0, 1), BinaryOp::GreaterThanOrEq),
        (jit_eq(&vm, 2, 0, 1), BinaryOp::Eq),
        (jit_ne(&vm, 2, 0, 1), BinaryOp::NotEq),
    ];
    for (request, op) in requests {
        assert_eq!(request.op, op);
        assert_eq!(request.dst, 2);
        assert_eq!(request.lhs, JsValue::Integer32(7));
        assert_eq!(request.rhs, JsValue::Integer32(8));
    }
}

#[test]
fn fast_path_then_full_operation() {
    let mut vm = machine();
    let request = jit_add(&vm, 2, 0, 1);
    // No fast path: the same operation is asked for in full.
    let slow = match request.fast(&mut vm, None) {
        Next::Ask(slow) => slow,
        Next::Done(code) => panic!("{code}"),
    };
    assert_eq!(slow, request);
    assert_eq!(slow.slow(&mut vm, Err(thrown(3))), 1);
    assert_eq!(pending(&vm), 3);
    assert_eq!(vm.get_register(2), JsValue::Undefined);
    assert_eq!(slow.slow(&mut vm, Ok(JsValue::Integer32(15))), 0);
    assert_eq!(vm.get_register(2), JsValue::Integer32(15));
    assert!(matches!(
        request.fast(&mut vm, Some(JsValue::Integer32(16))),
        Next::Done(0)
    ));
    assert_eq!(vm.get_register(2), JsValue::Integer32(16));
}

#[test]
fn strict_equality_and_its_opposite() {
    let mut vm = machine();
    let request = jit_strict_eq(&vm, 0, 1, 2);
    assert!(!request.negated);
    request.resume(&mut vm, true);
    assert_eq!(vm.get_register(0), JsValue::Boolean(true));
    let request = jit_strict_ne(&vm, 0, 1, 2);
    assert!(request.negated);
    request.resume(&mut vm, true);
    assert_eq!(vm.get_register(0), JsValue::Boolean(false));
}

#[test]
fn increment_and_decrement() {
    let mut vm = machine();
    jit_store_int8(&mut vm, 0, 41);
    assert!(matches!(jit_inc(&mut vm, 1, 0), Next::Done(0)));
    assert_eq!(vm.get_register(0), JsValue::Integer32(41));
    assert_eq!(vm.get_register(1), JsValue::Integer32(42));
    assert!(matches!(jit_dec(&mut vm, 0, 0), Next::Done(0)));
    assert_eq!(vm.get_register(0), JsValue::Integer32(40));

    // At the ends of the range the engine takes over.
    jit_store_int32(&mut vm, 0, i32::MAX);
    let request = match jit_inc(&mut vm, 1, 0) {
        Next::Ask(request) => request,
        Next::Done(code) => panic!("{code}"),
    };
    let value = JsValue::Integer32(i32::MAX);
    assert_eq!(request, ToNumeric { dst: 1, src: 0, value, increment: true });
    assert_eq!(vm.get_register(0), JsValue::Undefined);
    let stepped = JsValue::Float64(2147483648f64.to_bits());
    assert_eq!(request.resume(&mut vm, Ok(Numeric { value, stepped })), 0);
    assert_eq!(vm.get_register(0), value);
    assert_eq!(vm.get_register(1), stepped);

    jit_store_int32(&mut vm, 0, i32::MIN);
    let request = match jit_dec(&mut vm, 1, 0) {
        Next::Ask(request) => request,
        Next::Done(code) => panic!("{code}"),
    };
    assert!(!request.increment);
    assert_eq!(request.resume(&mut vm, Err(thrown(4))), 1);
    assert_eq!(pending(&vm), 4);
}

#[test]
fn not_less_than_statuses() {
    let mut vm = machine();
    let request = jit_not_less_than(&vm, 0, 1);
    assert!(matches!(request.fast(Some(true)), Next::Done(0)));
    assert!(matches!(request.fast(Some(false)), Next::Done(1)));
    assert!(matches!(request.fast(None), Next::Ask(_)));
    assert_eq!(request.slow(&mut vm, Ok(true)), 0);
    assert_eq!(request.slow(&mut vm, Ok(false)), 1);
    assert!(vm.pending_exception.is_none());
    assert_eq!(request.slow(&mut vm, Err(thrown(5))), 2);
    assert_eq!(pending(&vm), 5);
}

#[test]
fn property_by_value_converts_object_before_key() {
    let mut vm = machine();
    jit_store_int8(&mut vm, 1, 1);
    jit_store_int8(&mut vm, 2, 2);
    jit_store_int8(&mut vm, 3, 3);
    let request = jit_get_property_by_value(&vm, 0, 1, 2, 3);
    assert_eq!(request, jit_get_property_by_value_push(&vm, 0, 1, 2, 3));
    assert_eq!(request.key, JsValue::Integer32(1));
    assert_eq!(request.receiver, JsValue::Integer32(2));
    assert_eq!(request.object, JsValue::Integer32(3));
    let key = match request.on_object(&mut vm, Ok(50)) {
        Next::Ask(key) => key,
        Next::Done(code) => panic!("{code}"),
    };
    let get = match key.on_key(&mut vm, Ok(PropertyKey::Computed(60))) {
        Next::Ask(get) => get,
        Next::Done(code) => panic!("{code}"),
    };
    assert_eq!(get.object, 50);
    assert!(matches!(get.key, PropertyKey::Computed(60)));
    assert_eq!(get.receiver, JsValue::Integer32(2));
    assert_eq!(get.resume(&mut vm, Ok(JsValue::Null)), 0);
    assert_eq!(vm.get_register(0), JsValue::Null);

    assert!(matches!(request.on_object(&mut vm, Err(thrown(6))), Next::Done(1)));
    assert_eq!(pending(&vm), 6);
    assert!(matches!(key.on_key(&mut vm, Err(thrown(7))), Next::Done(1)));
    assert_eq!(pending(&vm), 7);
}

#[test]
fn property_write_ignores_refusal() {
    let mut vm = machine();
    jit_store_int8(&mut vm, 0, 9);
    let request = jit_set_property_by_value(&vm, 0, 1, 2, 3);
    assert_eq!(request.value, JsValue::Integer32(9));
    let key = match request.on_object(&mut vm, Ok(50)) {
        Next::Ask(key) => key,
        Next::Done(code) => panic!("{code}"),
    };
    let set = match key.on_key(&mut vm, Ok(PropertyKey::Computed(1))) {
        Next::Ask(set) => set,
        Next::Done(code) => panic!("{code}"),
    };
    assert_eq!(set.resume(&mut vm, Ok(false)), 0);
    let set = match key.on_key(&mut vm, Ok(PropertyKey::Computed(1))) {
        Next::Ask(set) => set,
        Next::Done(code) => panic!("{code}"),
    };
    assert_eq!(set.resume(&mut vm, Err(thrown(8))), 1);
    assert_eq!(pending(&vm), 8);
    assert!(matches!(request.on_object(&mut vm, Err(thrown(9))), Next::Done(1)));
    assert!(matches!(key.on_key(&mut vm, Err(thrown(10))), Next::Done(1)));
    assert_eq!(pending(&vm), 10);
}

/// Objects 0 and 1 share a shape and have object 2 for a prototype.
fn heap() -> Heap {
    let object = |value: i32| JsObject {
        shape: 70,
        prototype: Some(2),
        storage: vec![JsValue::Integer32(value)],
    };
    Heap {
        objects: vec![
            object(10),
            object(11),
            JsObject {
                shape: 71,
                prototype: None,
                storage: vec![JsValue::Integer32(12), JsValue::Object(99)],
            },
        ],
    }
}

fn cached(slot: Slot) -> CodeBlock {
    let mut code = CodeBlock::new("test".to_string(), 0, false);
    code.ic = vec![InlineCache {
        name: "x".to_string(),
        entries: vec![
            CacheEntry { shape: 69, slot: Slot { index: 5, prototype: false, get: false } },
            CacheEntry { shape: 70, slot },
        ],
    }];
    code
}

fn read_by_name(vm: &mut Vm, slot: Slot, object: JsValue) -> Next<NamedRequest> {
    vm.frames[0].code_block = Rc::new(cached(slot));
    vm.set_register(1, object);
    jit_get_property_by_name(vm, &heap(), 0, 1, 0)
}

#[test]
fn inline_cache_reads_slots() {
    let mut vm = machine();
    let own = Slot { index: 0, prototype: false, get: false };
    assert!(matches!(read_by_name(&mut vm, own, JsValue::Object(1)), Next::Done(0)));
    assert_eq!(vm.get_register(0), JsValue::Integer32(11));

    let inherited = Slot { index: 0, prototype: true, get: false };
    assert!(matches!(read_by_name(&mut vm, inherited, JsValue::Object(1)), Next::Done(0)));
    assert_eq!(vm.get_register(0), JsValue::Integer32(12));

    // A getter that is an object is called, any other value is the result.
    let getter = Slot { index: 1, prototype: true, get: true };
    match read_by_name(&mut vm, getter, JsValue::Object(0)) {
        Next::Ask(NamedRequest::CallGetter(call)) => {
            assert_eq!(call, GetterCall { dst: 0, getter: 99, this: JsValue::Object(0) });
            assert_eq!(call.resume(&mut vm, Ok(JsValue::Integer32(13))), 0);
            assert_eq!(vm.get_register(0), JsValue::Integer32(13));
            assert_eq!(call.resume(&mut vm, Err(thrown(11))), 1);
            assert_eq!(pending(&vm), 11);
        }
        _ => panic!("getter"),
    }
    let accessor = Slot { index: 0, prototype: true, get: true };
    assert!(matches!(read_by_name(&mut vm, accessor, JsValue::Object(0)), Next::Done(0)));
    assert_eq!(vm.get_register(0), JsValue::Integer32(12));
}

#[test]
fn inline_cache_misses() {
    let mut vm = machine();
    let own = Slot { index: 0, prototype: false, get: false };
    match read_by_name(&mut vm, own, JsValue::Object(2)) {
        Next::Ask(NamedRequest::Get(get)) => {
            assert_eq!(get.dst, 0);
            assert_eq!(get.object, 2);
            assert_eq!(get.receiver, JsValue::Object(2));
            assert!(matches!(&get.key, PropertyKey::Named(name) if name == "x"));
        }
        _ => panic!("miss"),
    }

    // What is no object is converted first.
    match read_by_name(&mut vm, own, JsValue::Boolean(true)) {
        Next::Ask(NamedRequest::ToObject(request)) => {
            let object = JsValue::Boolean(true);
            assert_eq!(request, NamedGet { dst: 0, object, ic_index: 0 });
            match request.on_object(&mut vm, Ok(0)) {
                Next::Ask(get) => {
                    assert_eq!(get.object, 0);
                    assert_eq!(get.receiver, JsValue::Boolean(true));
                    assert!(matches!(&get.key, PropertyKey::Named(name) if name == "x"));
                }
                Next::Done(code) => panic!("{code}"),
            }
            assert!(matches!(request.on_object(&mut vm, Err(thrown(12))), Next::Done(1)));
            assert_eq!(pending(&vm), 12);
        }
        _ => panic!("conversion"),
    }
}

#[test]
fn length_is_a_named_property() {
    let mut vm = machine();
    let request = jit_get_length_property(&vm, 0, 1, 7);
    assert_eq!(request.object, JsValue::Undefined);
    match request.on_object(&mut vm, Ok(3)) {
        Next::Ask(get) => {
            assert!(matches!(&get.key, PropertyKey::Named(name) if name == "length"));
            assert_eq!(get.object, 3);
            assert_eq!(get.resume(&mut vm, Ok(JsValue::Integer32(4))), 0);
        }
        Next::Done(code) => panic!("{code}"),
    }
    assert_eq!(vm.get_register(0), JsValue::Integer32(4));
    assert!(matches!(request.on_object(&mut vm, Err(thrown(13))), Next::Done(1)));
}

fn with_binding(vm: &mut Vm) {
    let mut code = CodeBlock::new("test".to_string(), 0, false);
    code.bindings = vec![BindingLocator { name: "answer".to_string(), location: 5 }];
    vm.frames[0].code_block = Rc::new(code);
}

fn found() -> BindingLocator {
    BindingLocator { name: "answer".to_string(), location: 6 }
}

#[test]
fn missing_variable_is_a_reference_error() {
    let mut vm = machine();
    with_binding(&mut vm);
    let request = jit_get_name(&vm, 0, 0);
    assert_eq!(request.locator.name, "answer");
    assert_eq!(request.locator.location, 5);
    assert_eq!(request.missing, Missing::Raise);
    match request.on_found(&mut vm, Ok(found())) {
        Next::Ask(read) => {
            assert_eq!(read.locator.location, 6);
            assert_eq!(read.resume(&mut vm, Ok(None)), 1);
        }
        Next::Done(code) => panic!("{code}"),
    }
    assert_eq!(
        native(&vm),
        (ErrorKind::Reference, "answer is not defined".to_string())
    );
}

#[test]
fn missing_global_is_undefined() {
    let mut vm = machine();
    with_binding(&mut vm);
    jit_store_one(&mut vm, 0);
    match jit_get_name_global(&vm, 0, 0, 0).on_found(&mut vm, Ok(found())) {
        Next::Ask(read) => assert_eq!(read.resume(&mut vm, Ok(None)), 0),
        Next::Done(code) => panic!("{code}"),
    }
    assert_eq!(vm.get_register(0), JsValue::Undefined);
    assert!(vm.pending_exception.is_none());
}

#[test]
fn variables_are_read() {
    let mut vm = machine();
    with_binding(&mut vm);
    match jit_get_name(&vm, 0, 0).on_found(&mut vm, Ok(found())) {
        Next::Ask(read) => assert_eq!(read.resume(&mut vm, Ok(Some(JsValue::Null))), 0),
        Next::Done(code) => panic!("{code}"),
    }
    assert_eq!(vm.get_register(0), JsValue::Null);
    match jit_get_name(&vm, 0, 0).on_found(&mut vm, Err(thrown(14))) {
        Next::Done(code) => assert_eq!(code, 1),
        Next::Ask(_) => panic!("found"),
    }
    assert_eq!(pending(&vm), 14);
    match jit_get_name_global(&vm, 0, 0, 0).on_found(&mut vm, Ok(found())) {
        Next::Ask(read) => assert_eq!(read.resume(&mut vm, Err(thrown(15))), 1),
        Next::Done(code) => panic!("{code}"),
    }
    assert_eq!(pending(&vm), 15);
}

#[test]
fn calling_what_is_no_function_is_a_type_error() {
    let mut vm = machine();
    vm.push(JsValue::Undefined);
    vm.push(JsValue::Integer32(1));
    vm.push(JsValue::Integer32(2));
    assert!(matches!(jit_call_inner(&mut vm, 1), Next::Done(1)));
    assert_eq!(native(&vm), (ErrorKind::Type, "not a callable function".to_string()));
    let mut base = 100;
    assert!(matches!(jit_call(&mut vm, 1, &mut base), Next::Done(1)));
    assert_eq!(base, 4);
}

#[test]
fn native_calls_are_complete() {
    let mut vm = machine();
    vm.push(JsValue::Undefined);
    vm.push(JsValue::Object(8));
    let resolve = match jit_call_inner(&mut vm, 0) {
        Next::Ask(resolve) => resolve,
        Next::Done(code) => panic!("{code}"),
    };
    assert_eq!(resolve, ResolveCall { object: 8, argument_count: 0 });
    assert!(matches!(resolve.resume(&mut vm, Ok(true)), Next::Done(0)));
    assert!(!vm.frame().exit_early);
    assert!(matches!(resolve.resume(&mut vm, Err(thrown(16))), Next::Done(1)));
    assert_eq!(pending(&vm), 16);
}

#[test]
fn calls_leave_only_the_result() {
    let mut vm = machine();
    let before = vm.stack.clone();
    vm.push(JsValue::Undefined);
    vm.push(JsValue::Object(8));
    vm.push(JsValue::Integer32(1));
    let mut base = 4;
    let resolve = match jit_call(&mut vm, 1, &mut base) {
        Next::Ask(resolve) => resolve,
        Next::Done(code) => panic!("{code}"),
    };
    // The engine pushes the frame of the callee, with two registers.
    vm.push(JsValue::Undefined);
    vm.push(JsValue::Integer32(77));
    vm.frames.push(frame(11, 1));
    let run = match resolve.resume_call(&mut vm, Ok(false), &mut base) {
        Next::Ask(run) => run,
        Next::Done(code) => panic!("{code}"),
    };
    assert!(vm.frame().exit_early);
    jit_set_accumulator(&mut vm, 1);
    assert_eq!(jit_check_return_and_return(&mut vm), 1);
    // The callee exits early: its frame is still there, and so is its result.
    assert_eq!(vm.frames.len(), 2);
    assert_eq!(vm.stack, before);
    let result = vm.take_return_value();
    base = 0;
    assert_eq!(run.resume_call(&mut vm, CompletionRecord::Return(result), &mut base), 0);
    assert_eq!(base, 4);
    assert_eq!(vm.frames.len(), 1);
    assert_eq!(vm.pop(), JsValue::Integer32(77));
    assert_eq!(vm.stack, before);
}

#[test]
fn calls_pass_exceptions_on() {
    let mut vm = machine();
    assert_eq!(RunCallee.resume(&mut vm, CompletionRecord::Throw(thrown(17))), 1);
    assert_eq!(pending(&vm), 17);
    let stack = vm.stack.clone();
    assert_eq!(RunCallee.resume(&mut vm, CompletionRecord::Normal(JsValue::Null)), 0);
    assert_eq!(vm.stack, stack);
}

#[test]
fn ordinary_return_pushes_the_result() {
    let mut vm = machine();
    vm.frames.insert(0, frame(2, 0));
    vm.set_return_value(JsValue::Integer32(5));
    assert_eq!(jit_check_return_and_return(&mut vm), 0);
    assert_eq!(vm.frames.len(), 1);
    assert_eq!(vm.stack, vec![JsValue::Integer32(5)]);
    assert_eq!(vm.return_value, JsValue::Undefined);
}

fn constructor(this: JsValue, result: JsValue) -> Vm {
    let mut vm = machine();
    vm.frames[0].construct = true;
    vm.stack[0] = this;
    vm.set_return_value(result);
    vm
}

#[test]
fn return_values_of_calls_are_kept() {
    let mut vm = machine();
    vm.set_return_value(JsValue::Integer32(1));
    assert!(matches!(jit_check_return(&mut vm), Next::Done(0)));
    assert_eq!(vm.return_value, JsValue::Integer32(1));
}

#[test]
fn constructors_return_objects() {
    let mut vm = constructor(JsValue::Object(1), JsValue::Object(2));
    assert!(matches!(jit_check_return(&mut vm), Next::Done(0)));
    assert_eq!(vm.return_value, JsValue::Object(2));

    let mut vm = constructor(JsValue::Object(1), JsValue::Integer32(3));
    assert!(matches!(jit_check_return(&mut vm), Next::Done(0)));
    assert_eq!(vm.return_value, JsValue::Object(1));

    let mut vm = constructor(JsValue::Undefined, JsValue::Integer32(3));
    assert!(matches!(jit_check_return(&mut vm), Next::Done(1)));
    assert_eq!(
        native(&vm),
        (
            ErrorKind::Type,
            "derived constructor can only return an Object or undefined".to_string()
        )
    );

    let mut vm = constructor(JsValue::Undefined, JsValue::Undefined);
    vm.frames[0].this_value_cached = true;
    assert!(matches!(jit_check_return(&mut vm), Next::Done(0)));
    assert_eq!(vm.return_value, JsValue::Undefined);
}

#[test]
fn derived_constructors_look_up_this() {
    let mut vm = constructor(JsValue::Undefined, JsValue::Undefined);
    let request = match jit_check_return(&mut vm) {
        Next::Ask(request) => request,
        Next::Done(code) => panic!("{code}"),
    };
    assert_eq!(request, ThisBinding);
    let global = JsValue::Object(4);
    assert_eq!(request.resume(&mut vm, Ok(Some(JsValue::Object(3))), global), 0);
    assert_eq!(vm.return_value, JsValue::Object(3));
    assert_eq!(request.resume(&mut vm, Ok(None), global), 0);
    assert_eq!(vm.return_value, JsValue::Object(4));
    assert_eq!(request.resume(&mut vm, Err(thrown(18)), global), 1);
    assert_eq!(pending(&vm), 18);
}

#[test]
fn constructors_end_with_this() {
    let mut vm = constructor(JsValue::Object(1), JsValue::Undefined);
    assert!(matches!(jit_check_return(&mut vm), Next::Done(0)));
    assert_eq!(jit_check_return_and_return(&mut vm), 0);
    assert_eq!(vm.stack, vec![JsValue::Object(1)]);
    assert!(vm.frames.is_empty());

    let mut vm = constructor(JsValue::Object(1), JsValue::Undefined);
    vm.frames[0].exit_early = true;
    assert!(matches!(jit_check_return(&mut vm), Next::Done(0)));
    assert_eq!(jit_check_return_and_return(&mut vm), 1);
    assert_eq!(vm.return_value, JsValue::Object(1));
    assert_eq!(vm.frames.len(), 1);
}

#[test]
fn interpreter_gets_the_instruction_at_a_position() {
    let instructions = [
        Instruction::StoreInt8 { dst: 1, value: -3 },
        Instruction::Add { dst: 2, lhs: 1, rhs: 1 },
        Instruction::Return,
    ];
    let mut emitter = BytecodeEmitter::new();
    let mut positions = Vec::new();
    for instruction in &instructions {
        positions.push(emitter.next_pc() as u32);
        emitter.emit(*instruction);
    }
    let mut code = CodeBlock::new("test".to_string(), 0, false);
    code.bytecode = emitter.into_bytecode();
    let mut vm = machine();
    vm.frames[0].code_block = Rc::new(code);
    for (pc, instruction) in positions.iter().zip(&instructions) {
        assert_eq!(jit_interpret(&vm, *pc).instruction, *instruction);
    }

    // It does not jump, it jumps, it fails.
    let before = vm.stack.clone();
    let request = jit_interpret(&vm, positions[1]);
    assert_eq!(request.resume(&mut vm, Ok(false)), 0);
    assert_eq!(request.resume(&mut vm, Ok(true)), 1);
    assert!(vm.pending_exception.is_none());
    assert_eq!(request.resume(&mut vm, Err(thrown(19))), 2);
    assert_eq!(pending(&vm), 19);
    assert_eq!(vm.stack, before);
}

#[test]
fn drop_undoes_clone() {
    let mut counts = RefCounts::new();
    counts.allocate(0x1000);
    counts.allocate(0x2000);
    let raw = box_object(0x1000);
    jit_clone_value(&mut counts, raw);
    assert_eq!(counts.count(0x1000), 2);
    assert_eq!(counts.count(0x2000), 1);
    jit_drop_value(&mut counts, raw);
    assert_eq!(counts.count(0x1000), 1);
    jit_drop_value(&mut counts, raw);
    assert_eq!(counts.count(0x1000), 0);
    assert_eq!(counts.count(0x2000), 1);
    assert_eq!(counts.counts.len(), 2);
}
