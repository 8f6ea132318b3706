//! Just-in-time compilation of bytecode.

pub mod backend;
pub mod bytecode;
pub mod code_block;
pub mod code_types;
pub mod compiler;
pub mod engine;
pub mod execution;
pub mod helpers;
pub mod instruction;
pub mod ir;
pub mod jumps;
pub mod little_endian;
pub mod names;
pub mod opcode;
pub mod optimize;
pub mod runtime;
pub mod support;
pub mod translate;
pub mod typing;
pub mod value;
pub mod vm;
