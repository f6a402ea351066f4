//! The encoder: a deterministic, pure mapping from a resolved instruction
//! to its byte record, and the concatenation of all records, in program
//! order and with no padding, into the final image.
//!
//! Layout of one record: the opcode byte, the flag byte, then the operand
//! bytes in the fixed order left input, right input, destination.  A
//! register contributes one byte (its ordinal); an integer literal
//! contributes exactly `width / 8` bytes, big-endian, truncated to the
//! immediate width of the mnemonic; a destination address contributes
//! eight bytes, big-endian; an absent operand contributes nothing.

use vstd::prelude::*;
use crate::bytes::be_bytes;
use crate::bytes::be_encode;
use crate::token::{MachineEncodable, OpCode, Width};
use crate::resolved::{ResolvedInstruction, ResolvedOperand, ResolvedOutOperand};
use crate::errors::{AsmError, SpecAsmError};

verus! {

/// How many immediate operands the mnemonic's shape declares.
pub open spec fn implied_imm_count(op: OpCode) -> nat {
    match op.spec_imm_flag() {
        None => 0,
        Some(f) => f.spec_imm_count(),
    }
}

/// The width class of the mnemonic's immediates; `W8` when its shape
/// declares none.
pub open spec fn imm_width(op: OpCode) -> Width {
    match op.spec_imm_flag() {
        None => Width::W8,
        Some(f) => f.spec_width(),
    }
}

/// How many of the instruction's input operands are integer literals.
pub open spec fn lit_count(i: ResolvedInstruction) -> nat {
    operand_lit_count(i.arg_left) + operand_lit_count(i.arg_right)
}

/// One when the operand is an integer literal, zero otherwise.
pub open spec fn operand_lit_count(o: Option<ResolvedOperand>) -> nat {
    match o {
        Some(ResolvedOperand::Lit(_)) => 1,
        _ => 0,
    }
}

/// Whether the instruction can be encoded: its mnemonic accepts the
/// immediate shape it was parsed with, and the shape's declared immediate
/// count agrees with the literal operands actually present.
pub open spec fn spec_encodable(i: ResolvedInstruction) -> bool {
    i.opcode.spec_shape_supported() && lit_count(i) == implied_imm_count(i.opcode)
}

/// The bytes one input operand contributes.
pub open spec fn in_operand_bytes(o: Option<ResolvedOperand>, w: Width) -> Seq<u8> {
    match o {
        None => Seq::empty(),
        Some(ResolvedOperand::Reg(g)) => seq![g.spec_num()],
        Some(ResolvedOperand::Lit(l)) => l.spec_encode_width(w),
    }
}

/// The bytes the destination operand contributes.  A resolved label
/// address is encoded in full: eight bytes, big-endian.
pub open spec fn out_operand_bytes(o: Option<ResolvedOutOperand>) -> Seq<u8> {
    match o {
        None => Seq::empty(),
        Some(ResolvedOutOperand::Reg(g)) => seq![g.spec_num()],
        Some(ResolvedOutOperand::Addr(a)) => be_bytes((a as u64) as nat, 8),
    }
}

/// The byte record of one resolved instruction.
pub open spec fn spec_instruction_bytes(i: ResolvedInstruction) -> Seq<u8> {
    i.opcode.spec_encode() + in_operand_bytes(i.arg_left, imm_width(i.opcode)) + in_operand_bytes(
        i.arg_right,
        imm_width(i.opcode),
    ) + out_operand_bytes(i.arg_out)
}

/// The final image: every record concatenated in program order.
pub open spec fn spec_image(ris: Seq<ResolvedInstruction>) -> Seq<u8>
    decreases ris.len(),
{
    if ris.len() == 0 {
        Seq::empty()
    } else {
        spec_image(ris.drop_last()) + spec_instruction_bytes(ris.last())
    }
}

/// The diagnostics encoding produces: one `UnsupportedImmediateShape`,
/// carrying the mnemonic and the instruction's address, for every record
/// that cannot be encoded.
pub open spec fn encoding_errors(ris: Seq<ResolvedInstruction>) -> Seq<SpecAsmError>
    decreases ris.len(),
{
    if ris.len() == 0 {
        Seq::empty()
    } else {
        encoding_errors(ris.drop_last()) + if spec_encodable(ris.last()) {
            Seq::empty()
        } else {
            seq![
                SpecAsmError::UnsupportedImmediateShape {
                    opcode: ris.last().opcode,
                    address: ris.len() - 1,
                },
            ]
        }
    }
}

/// Appends the bytes of one input operand.
fn push_in_operand(out: &mut Vec<u8>, o: &Option<ResolvedOperand>, w: Width)
    ensures
        final(out)@ == old(out)@ + in_operand_bytes(*o, w),
{
    let ghost before = out@;
    match o {
        None => {},
        Some(ResolvedOperand::Reg(g)) => {
            out.push(g.num());
        },
        Some(ResolvedOperand::Lit(l)) => {
            let mut bs = l.encode_width(w);
            out.append(&mut bs);
        },
    }
    proof {
        assert(out@ =~= before + in_operand_bytes(*o, w));
    }
}

/// Appends the bytes of the destination operand.
fn push_out_operand(out: &mut Vec<u8>, o: &Option<ResolvedOutOperand>)
    ensures
        final(out)@ == old(out)@ + out_operand_bytes(*o),
{
    let ghost before = out@;
    match o {
        None => {},
        Some(ResolvedOutOperand::Reg(g)) => {
            out.push(g.num());
        },
        Some(ResolvedOutOperand::Addr(a)) => {
            let mut bs = be_encode(*a as u64, 8);
            out.append(&mut bs);
        },
    }
    proof {
        assert(out@ =~= before + out_operand_bytes(*o));
    }
}

/// Encodes one resolved instruction standing at `address`.
///
/// Succeeds with the record's bytes exactly when the mnemonic accepts its
/// immediate shape and the shape agrees with the operands present; fails
/// with `UnsupportedImmediateShape` otherwise, emitting no bytes at all
/// for the record.
pub fn encode_instruction(i: &ResolvedInstruction, address: usize) -> (r: Result<Vec<u8>, AsmError>)
    ensures
        match r {
            Ok(bytes) => spec_encodable(*i) && bytes@ == spec_instruction_bytes(*i),
            Err(e) => !spec_encodable(*i) && e@ == (SpecAsmError::UnsupportedImmediateShape {
                opcode: i.opcode,
                address: address as int,
            }),
        },
{
    let lits: usize = {
        let left: usize = match &i.arg_left {
            Some(ResolvedOperand::Lit(_)) => 1,
            _ => 0,
        };
        let right: usize = match &i.arg_right {
            Some(ResolvedOperand::Lit(_)) => 1,
            _ => 0,
        };
        left + right
    };
    let implied: usize = match i.opcode.imm_flag() {
        None => 0,
        Some(f) => f.imm_count(),
    };
    if !i.opcode.shape_supported() || lits != implied {
        return Err(AsmError::UnsupportedImmediateShape { opcode: i.opcode, address });
    }
    let w = match i.opcode.imm_flag() {
        None => Width::W8,
        Some(f) => f.width(),
    };
    let mut out = i.opcode.encode();
    push_in_operand(&mut out, &i.arg_left, w);
    push_in_operand(&mut out, &i.arg_right, w);
    push_out_operand(&mut out, &i.arg_out);
    proof {
        assert(out@ =~= spec_instruction_bytes(*i));
    }
    Ok(out)
}

/// Encodes the whole program.
///
/// Succeeds with the concatenated image exactly when every record can be
/// encoded; fails with the full list of shape diagnostics, in address
/// order, otherwise.
pub fn encode_program(ris: &Vec<ResolvedInstruction>) -> (r: Result<Vec<u8>, Vec<AsmError>>)
    ensures
        match r {
            Ok(bytes) => encoding_errors(ris@).len() == 0 && bytes@ == spec_image(ris@),
            Err(es) => es.deep_view() == encoding_errors(ris@) && encoding_errors(ris@).len() > 0,
        },
{
    let ghost all = ris@;
    let mut image: Vec<u8> = Vec::new();
    let mut errors: Vec<AsmError> = Vec::new();
    let mut i: usize = 0;
    proof {
        assert(all.take(0) =~= Seq::<ResolvedInstruction>::empty());
        assert(errors.deep_view() =~= Seq::<SpecAsmError>::empty());
    }
    while i < ris.len()
        invariant
            i <= ris.len(),
            all == ris@,
            errors.deep_view() == encoding_errors(all.take(i as int)),
            errors.deep_view().len() == 0 ==> image@ == spec_image(all.take(i as int)),
        decreases ris.len() - i,
    {
        let ghost prefix = all.take(i as int);
        proof {
            assert(all.take(i + 1).drop_last() =~= prefix);
            assert(all.take(i + 1).last() == all[i as int]);
        }
        let ghost errs_before = errors.deep_view();
        match encode_instruction(&ris[i], i) {
            Ok(mut bytes) => {
                proof {
                    assert(errors.deep_view().len() == errors@.len());
                }
                if errors.len() == 0 {
                    image.append(&mut bytes);
                }
                proof {
                    assert(errors.deep_view() =~= encoding_errors(all.take(i + 1)));
                    if errors.deep_view().len() == 0 {
                        assert(image@ =~= spec_image(all.take(i + 1)));
                    }
                }
            },
            Err(e) => {
                errors.push(e);
                proof {
                    assert(errors.deep_view() =~= errs_before + seq![e@]);
                    assert(errors.deep_view() =~= encoding_errors(all.take(i + 1)));
                }
            },
        }
        i = i + 1;
    }
    proof {
        assert(all.take(ris.len() as int) =~= all);
        assert(errors.deep_view().len() == errors@.len());
    }
    if errors.len() == 0 {
        Ok(image)
    } else {
        Err(errors)
    }
}

/// Round-trip determinism: the image is a function of the resolved
/// program alone, so encoding the same program twice yields byte-identical
/// output.
pub proof fn lemma_encoding_deterministic(
    ris: Seq<ResolvedInstruction>,
    first: Seq<u8>,
    second: Seq<u8>,
)
    requires
        first == spec_image(ris),
        second == spec_image(ris),
    ensures
        first == second,
{
}

/// Shape-error detection: a program holding an instruction whose mnemonic
/// does not accept its immediate shape encodes to an error list that
/// names that mnemonic at that instruction's address.
pub proof fn lemma_unsupported_shape_detected(ris: Seq<ResolvedInstruction>, k: int)
    requires
        0 <= k < ris.len(),
        !spec_encodable(ris[k]),
    ensures
        encoding_errors(ris).len() > 0,
        exists|j: int|
            0 <= j < encoding_errors(ris).len() && encoding_errors(ris)[j]
                == (SpecAsmError::UnsupportedImmediateShape { opcode: ris[k].opcode, address: k }),
    decreases ris.len(),
{
    let errs = encoding_errors(ris);
    let e = SpecAsmError::UnsupportedImmediateShape { opcode: ris[k].opcode, address: k };
    if k == ris.len() - 1 {
        let sub = encoding_errors(ris.drop_last());
        assert(errs[sub.len() as int] == e);
    } else {
        lemma_unsupported_shape_detected(ris.drop_last(), k);
        let sub = encoding_errors(ris.drop_last());
        assert(ris.drop_last()[k] == ris[k]);
        let j0 = choose|j: int|
            0 <= j < sub.len() && sub[j] == (SpecAsmError::UnsupportedImmediateShape {
                opcode: ris.drop_last()[k].opcode,
                address: k,
            });
        assert(errs[j0] == sub[j0]);
    }
}

} // verus!
