//! A verified two-pass assembler core for a small custom instruction set.
//!
//! The pipeline turns a sequence of structured source lines (label
//! definitions and instructions, as handed over by an external line-level
//! front end) into a flat big-endian machine-code image:
//!
//! 1. pass 1 collects label addresses into a symbol table and the
//!    instructions into a program,
//! 2. pass 2 rewrites every symbolic operand into a concrete value,
//! 3. the encoder packs each fully resolved instruction into bytes and
//!    concatenates them in program order.
//!
//! Every stage collects all the errors it can detect; only an error-free
//! stage hands its output to the next one.

pub mod bytes;
pub mod token;
pub mod resolved;
pub mod errors;
pub mod symtab;
pub mod resolve;
pub mod encode;
pub mod assemble;
