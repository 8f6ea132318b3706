# boa_jit

A just-in-time compiler for the bytecode of a JavaScript virtual machine, verified with
Verus. It translates the bytecode of a function into native code with Cranelift. Native code
works on the same stack and registers as the interpreter, and calls runtime helpers for all
operations on values. A function is either compiled as a whole or left to the interpreter.
Each instruction of a compiled function has a block of native code. Constants, registers, the
stack, operators, variables, properties, calls and the ends of a function have helpers of
their own; for anything else the helper is the interpreter's handler of that one instruction.
Jumps go from block to block.

- `src/opcode.rs`, `instruction.rs`, `little_endian.rs`, `bytecode.rs`: bytecode and its
  encoding.
- `src/ir.rs`, `optimize.rs`, `typing.rs`: basic blocks, type propagation, and what the
  propagated types promise.
- `src/value.rs`, `code_block.rs`, `vm.rs`: values, code and the virtual machine.
- `src/helpers/`: the runtime helpers. A helper that needs the engine midway stops with a
  request and goes on with the answer.
- `src/support.rs`, `jumps.rs`: which bytecode is compiled, and where its jumps lead.
- `src/translate.rs`, `names.rs`, `compiler.rs`: the translation, and the compiler that
  carries it out.
- `src/backend.rs`: the calls into Cranelift, with what is relied on of each of them.
- `src/engine.rs`, `runtime.rs`: what instructions do in terms of what the engine does, and
  that each helper, with the engine's answers, does what its instruction does.
- `src/execution.rs`, `code_types.rs`: what compiled code does when it runs, that it does
  what the interpreter does with the bytecode, and that it is well typed.
- `app/`: functions for the addresses of compiled code, and the helpers under the calling
  convention of native code, around an engine.
