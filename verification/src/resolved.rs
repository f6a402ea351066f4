//! The post-resolution instruction representation.
//!
//! A distinct type from the parsed one, so that "encode a still-symbolic
//! operand" is unrepresentable rather than merely checked at run time:
//! after pass 2 an operand is a register, a concrete literal, or (for a
//! destination) a concrete address, and nothing else.

use vstd::prelude::*;
use crate::token::{IntLiteral, OpCode, Register};

verus! {

/// An input operand with every symbolic reference already substituted.
#[derive(Debug, Clone, Copy, PartialEq, Eq, Structural)]
pub enum ResolvedOperand {
    Reg(Register),
    Lit(IntLiteral),
}

/// A destination operand with every symbolic reference already
/// substituted: a register, or the raw resolved address of a label.
#[derive(Debug, Clone, Copy, PartialEq, Eq, Structural)]
pub enum ResolvedOutOperand {
    Reg(Register),
    Addr(usize),
}

/// A fully resolved instruction: what the encoder consumes.
#[derive(Debug, Clone, Copy, PartialEq, Eq, Structural)]
pub struct ResolvedInstruction {
    pub opcode: OpCode,
    pub arg_left: Option<ResolvedOperand>,
    pub arg_right: Option<ResolvedOperand>,
    pub arg_out: Option<ResolvedOutOperand>,
}

} // verus!
