//! The error taxonomy of the pipeline.
//!
//! Every error is a value; no malformed input ever aborts the process.
//! Each pass collects all the errors it can detect before the pipeline
//! stops, so a report covers the whole source in one run.

use vstd::prelude::*;
use crate::token::OpCode;

verus! {

/// One diagnostic of the pipeline.
///
/// `line` is the index of the offending line in the source-line sequence
/// handed to the assembler; `address` is the program-order index of the
/// offending instruction.
#[derive(Debug, PartialEq, Eq)]
pub enum AsmError {
    /// The line parsed as neither a label definition nor an instruction.
    SyntaxError { line: usize },
    /// A label was defined twice; neither address wins.
    DuplicateLabel { name: String, line: usize },
    /// An operand references a label that is defined nowhere.
    UndefinedSymbol { name: String, line: usize },
    /// The mnemonic does not accept the immediate shape it was parsed
    /// with, or the shape does not agree with the operands present.
    UnsupportedImmediateShape { opcode: OpCode, address: usize },
    /// The mnemonic has no numeric code assigned.  Every mnemonic of the
    /// current instruction set has one, so the encoder never produces
    /// this; it is kept so that a completeness gap stays mechanically
    /// detectable.
    UnimplementedOpcode { opcode: OpCode },
}

/// The mathematical shape of a diagnostic: label names as character
/// sequences, positions as unbounded integers.
pub enum SpecAsmError {
    SyntaxError { line: int },
    DuplicateLabel { name: Seq<char>, line: int },
    UndefinedSymbol { name: Seq<char>, line: int },
    UnsupportedImmediateShape { opcode: OpCode, address: int },
    UnimplementedOpcode { opcode: OpCode },
}

impl View for AsmError {
    type V = SpecAsmError;

    open spec fn view(&self) -> SpecAsmError {
        match self {
            AsmError::SyntaxError { line } => SpecAsmError::SyntaxError { line: *line as int },
            AsmError::DuplicateLabel { name, line } => SpecAsmError::DuplicateLabel {
                name: name@,
                line: *line as int,
            },
            AsmError::UndefinedSymbol { name, line } => SpecAsmError::UndefinedSymbol {
                name: name@,
                line: *line as int,
            },
            AsmError::UnsupportedImmediateShape { opcode, address } =>
                SpecAsmError::UnsupportedImmediateShape { opcode: *opcode, address: *address as int },
            AsmError::UnimplementedOpcode { opcode } => SpecAsmError::UnimplementedOpcode {
                opcode: *opcode,
            },
        }
    }
}

impl DeepView for AsmError {
    type V = SpecAsmError;

    open spec fn deep_view(&self) -> SpecAsmError {
        self.view()
    }
}

} // verus!
