//! A minimal stack-machine bytecode format and its interpreter.
//!
//! Programs are flat byte buffers: a concatenation of records, each one
//! opcode byte followed by that opcode's operand words in little-endian
//! byte order. The virtual machine fetches, decodes and executes records
//! one at a time, operating on a single growable stack of machine words.

pub mod bytecode;
pub mod vm;

