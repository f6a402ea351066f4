//! Pass 2: rewrites every symbolic operand of every instruction into a
//! concrete value looked up in the symbol table.
//!
//! A symbolic input operand becomes an integer literal holding the label's
//! resolved address; a symbolic destination becomes the raw address.  A
//! lookup miss is an `UndefinedSymbol` error carrying the label name and
//! the instruction's source line; the pass collects every such miss
//! before failing, and never substitutes a default.

use vstd::prelude::*;
use crate::token::{
    IntLiteral, Operand, OutOperand, PlacedInstruction, SpecInstruction, SpecOperand,
    SpecOutOperand, SpecPlacedInstruction,
};
use crate::resolved::{ResolvedInstruction, ResolvedOperand, ResolvedOutOperand};
use crate::errors::{AsmError, SpecAsmError};
use crate::symtab::SymbolTable;

verus! {

/// What an input operand resolves to.  A symbolic reference becomes an
/// integer literal holding the address it was defined at.
pub open spec fn spec_resolve_operand(
    o: Option<SpecOperand>,
    table: Map<Seq<char>, usize>,
) -> Option<ResolvedOperand> {
    match o {
        None => None,
        Some(SpecOperand::Reg(g)) => Some(ResolvedOperand::Reg(g)),
        Some(SpecOperand::Lit(l)) => Some(ResolvedOperand::Lit(l)),
        Some(SpecOperand::Symbol(n)) => Some(
            ResolvedOperand::Lit(IntLiteral { value: table[n] as i64 }),
        ),
    }
}

/// What a destination operand resolves to.  A symbolic reference becomes
/// the raw resolved address.
pub open spec fn spec_resolve_out_operand(
    o: Option<SpecOutOperand>,
    table: Map<Seq<char>, usize>,
) -> Option<ResolvedOutOperand> {
    match o {
        None => None,
        Some(SpecOutOperand::Reg(g)) => Some(ResolvedOutOperand::Reg(g)),
        Some(SpecOutOperand::Symbol(n)) => Some(ResolvedOutOperand::Addr(table[n])),
    }
}

/// The diagnostics an input operand contributes: one `UndefinedSymbol`
/// when it references a name the table lacks, none otherwise.
pub open spec fn operand_errors(
    o: Option<SpecOperand>,
    line: int,
    table: Map<Seq<char>, usize>,
) -> Seq<SpecAsmError> {
    match o {
        Some(SpecOperand::Symbol(n)) => if !table.contains_key(n) {
            seq![SpecAsmError::UndefinedSymbol { name: n, line }]
        } else {
            Seq::empty()
        },
        _ => Seq::empty(),
    }
}

/// The diagnostics a destination operand contributes.
pub open spec fn out_operand_errors(
    o: Option<SpecOutOperand>,
    line: int,
    table: Map<Seq<char>, usize>,
) -> Seq<SpecAsmError> {
    match o {
        Some(SpecOutOperand::Symbol(n)) => if !table.contains_key(n) {
            seq![SpecAsmError::UndefinedSymbol { name: n, line }]
        } else {
            Seq::empty()
        },
        _ => Seq::empty(),
    }
}

/// The diagnostics one instruction contributes, in operand order: left
/// input, right input, destination.
pub open spec fn instruction_errors(
    p: SpecPlacedInstruction,
    table: Map<Seq<char>, usize>,
) -> Seq<SpecAsmError> {
    operand_errors(p.instruction.arg_left, p.line, table) + operand_errors(
        p.instruction.arg_right,
        p.line,
        table,
    ) + out_operand_errors(p.instruction.arg_out, p.line, table)
}

/// Every `UndefinedSymbol` diagnostic of the program, in program order.
pub open spec fn undefined_errors(
    prog: Seq<SpecPlacedInstruction>,
    table: Map<Seq<char>, usize>,
) -> Seq<SpecAsmError>
    decreases prog.len(),
{
    if prog.len() == 0 {
        Seq::empty()
    } else {
        undefined_errors(prog.drop_last(), table) + instruction_errors(prog.last(), table)
    }
}

/// One instruction with every operand substituted.  Meaningful only when
/// the instruction contributes no diagnostic.
pub open spec fn spec_resolve_instruction(
    i: SpecInstruction,
    table: Map<Seq<char>, usize>,
) -> ResolvedInstruction {
    ResolvedInstruction {
        opcode: i.opcode,
        arg_left: spec_resolve_operand(i.arg_left, table),
        arg_right: spec_resolve_operand(i.arg_right, table),
        arg_out: spec_resolve_out_operand(i.arg_out, table),
    }
}

/// The whole program with every operand substituted.
pub open spec fn spec_resolve_program(
    prog: Seq<SpecPlacedInstruction>,
    table: Map<Seq<char>, usize>,
) -> Seq<ResolvedInstruction>
    decreases prog.len(),
{
    if prog.len() == 0 {
        Seq::empty()
    } else {
        spec_resolve_program(prog.drop_last(), table).push(
            spec_resolve_instruction(prog.last().instruction, table),
        )
    }
}

/// Resolves one input operand, or reports the name it cannot resolve.
fn resolve_operand(o: &Option<Operand>, line: usize, table: &SymbolTable) -> (r: Result<
    Option<ResolvedOperand>,
    AsmError,
>)
    ensures
        match r {
            Ok(ro) => operand_errors(o.deep_view(), line as int, table@).len() == 0 && ro
                == spec_resolve_operand(o.deep_view(), table@),
            Err(e) => seq![e@] == operand_errors(o.deep_view(), line as int, table@),
        },
{
    match o {
        None => Ok(None),
        Some(Operand::Reg(g)) => Ok(Some(ResolvedOperand::Reg(*g))),
        Some(Operand::Lit(l)) => Ok(Some(ResolvedOperand::Lit(*l))),
        Some(Operand::Symbol(c)) => match table.lookup(c.name.as_str()) {
            Some(a) => Ok(Some(ResolvedOperand::Lit(IntLiteral { value: a as i64 }))),
            None => Err(AsmError::UndefinedSymbol { name: c.name.clone(), line }),
        },
    }
}

/// Resolves one destination operand, or reports the name it cannot
/// resolve.
fn resolve_out_operand(o: &Option<OutOperand>, line: usize, table: &SymbolTable) -> (r: Result<
    Option<ResolvedOutOperand>,
    AsmError,
>)
    ensures
        match r {
            Ok(ro) => out_operand_errors(o.deep_view(), line as int, table@).len() == 0 && ro
                == spec_resolve_out_operand(o.deep_view(), table@),
            Err(e) => seq![e@] == out_operand_errors(o.deep_view(), line as int, table@),
        },
{
    match o {
        None => Ok(None),
        Some(OutOperand::Reg(g)) => Ok(Some(ResolvedOutOperand::Reg(*g))),
        Some(OutOperand::Symbol(c)) => match table.lookup(c.name.as_str()) {
            Some(a) => Ok(Some(ResolvedOutOperand::Addr(a))),
            None => Err(AsmError::UndefinedSymbol { name: c.name.clone(), line }),
        },
    }
}

/// Resolves one instruction, appending every diagnostic it contributes.
fn resolve_instruction(p: &PlacedInstruction, table: &SymbolTable, errors: &mut Vec<AsmError>) -> (r:
    Option<ResolvedInstruction>)
    ensures
        final(errors).deep_view() == old(errors).deep_view() + instruction_errors(
            p.deep_view(),
            table@,
        ),
        instruction_errors(p.deep_view(), table@).len() == 0 ==> r == Some(
            spec_resolve_instruction(p.deep_view().instruction, table@),
        ),
        instruction_errors(p.deep_view(), table@).len() > 0 ==> r is None,
{
    let rl = resolve_operand(&p.instruction.arg_left, p.line, table);
    let rr = resolve_operand(&p.instruction.arg_right, p.line, table);
    let ro = resolve_out_operand(&p.instruction.arg_out, p.line, table);
    let ghost l_errs = operand_errors(p.deep_view().instruction.arg_left, p.line as int, table@);
    let ghost r_errs = operand_errors(p.deep_view().instruction.arg_right, p.line as int, table@);
    let ghost o_errs = out_operand_errors(p.deep_view().instruction.arg_out, p.line as int, table@);
    match (rl, rr, ro) {
        (Ok(left), Ok(right), Ok(out)) => {
            proof {
                assert(errors.deep_view() =~= old(errors).deep_view() + instruction_errors(
                    p.deep_view(),
                    table@,
                ));
            }
            Some(
                ResolvedInstruction {
                    opcode: p.instruction.opcode,
                    arg_left: left,
                    arg_right: right,
                    arg_out: out,
                },
            )
        },
        (rl2, rr2, ro2) => {
            let ghost before = errors.deep_view();
            if let Err(e) = rl2 {
                errors.push(e);
            }
            proof {
                assert(errors.deep_view() =~= before + l_errs);
            }
            let ghost mid1 = errors.deep_view();
            if let Err(e) = rr2 {
                errors.push(e);
            }
            proof {
                assert(errors.deep_view() =~= mid1 + r_errs);
            }
            let ghost mid2 = errors.deep_view();
            if let Err(e) = ro2 {
                errors.push(e);
            }
            proof {
                assert(errors.deep_view() =~= mid2 + o_errs);
                assert(errors.deep_view() =~= before + instruction_errors(p.deep_view(), table@));
            }
            None
        },
    }
}

/// Pass 2 over the whole program.
///
/// Succeeds, with every operand substituted in program order, exactly when
/// no operand references an undefined name; otherwise fails with the full
/// list of `UndefinedSymbol` diagnostics in program and operand order.
pub fn resolve_program(prog: &Vec<PlacedInstruction>, table: &SymbolTable) -> (r: Result<
    Vec<ResolvedInstruction>,
    Vec<AsmError>,
>)
    ensures
        match r {
            Ok(ris) => undefined_errors(prog.deep_view(), table@).len() == 0 && ris@
                == spec_resolve_program(prog.deep_view(), table@),
            Err(es) => es.deep_view() == undefined_errors(prog.deep_view(), table@)
                && undefined_errors(prog.deep_view(), table@).len() > 0,
        },
{
    let ghost all = prog.deep_view();
    let mut resolved: Vec<ResolvedInstruction> = Vec::new();
    let mut errors: Vec<AsmError> = Vec::new();
    let mut i: usize = 0;
    proof {
        assert(all.take(0) =~= Seq::<SpecPlacedInstruction>::empty());
        assert(errors.deep_view() =~= Seq::<SpecAsmError>::empty());
        assert(resolved@ =~= Seq::<ResolvedInstruction>::empty());
    }
    while i < prog.len()
        invariant
            i <= prog.len(),
            all == prog.deep_view(),
            errors.deep_view() == undefined_errors(all.take(i as int), table@),
            errors.deep_view().len() == 0 ==> resolved@ == spec_resolve_program(
                all.take(i as int),
                table@,
            ),
        decreases prog.len() - i,
    {
        let ghost prefix = all.take(i as int);
        proof {
            assert(all.take(i + 1).drop_last() =~= prefix);
            assert(all.take(i + 1).last() == prog[i as int].deep_view());
        }
        let p = &prog[i];
        let one = resolve_instruction(p, table, &mut errors);
        if errors.len() == 0 {
            match one {
                Some(ri) => {
                    resolved.push(ri);
                    proof {
                        assert(resolved@ =~= spec_resolve_program(all.take(i + 1), table@));
                    }
                },
                None => {
                    proof {
                        assert(errors.deep_view().len() == errors@.len());
                        assert(false);
                    }
                },
            }
        }
        i = i + 1;
    }
    proof {
        assert(all.take(prog.len() as int) =~= all);
    }
    if errors.len() == 0 {
        Ok(resolved)
    } else {
        Err(errors)
    }
}

/// Whether some operand of the instruction is a symbolic reference to
/// `name`.
pub open spec fn references(i: SpecInstruction, name: Seq<char>) -> bool {
    i.arg_left == Some(SpecOperand::Symbol(name)) || i.arg_right == Some(
        SpecOperand::Symbol(name),
    ) || i.arg_out == Some(SpecOutOperand::Symbol(name))
}

/// Undefined-symbol detection: a program in which some instruction
/// references a name the symbol table lacks resolves to an error list
/// that names that symbol, at that instruction's source line.
pub proof fn lemma_undefined_symbol_detected(
    prog: Seq<SpecPlacedInstruction>,
    table: Map<Seq<char>, usize>,
    k: int,
    name: Seq<char>,
)
    requires
        0 <= k < prog.len(),
        references(prog[k].instruction, name),
        !table.contains_key(name),
    ensures
        undefined_errors(prog, table).len() > 0,
        exists|j: int|
            0 <= j < undefined_errors(prog, table).len() && undefined_errors(prog, table)[j]
                == (SpecAsmError::UndefinedSymbol { name, line: prog[k].line }),
    decreases prog.len(),
{
    let errs = undefined_errors(prog, table);
    let last_errs = instruction_errors(prog.last(), table);
    if k == prog.len() - 1 {
        let p = prog.last();
        let e = SpecAsmError::UndefinedSymbol { name, line: p.line };
        assert(last_errs.len() > 0 && exists|j: int|
            0 <= j < last_errs.len() && last_errs[j] == e) by {
            if p.instruction.arg_left == Some(SpecOperand::Symbol(name)) {
                assert(operand_errors(p.instruction.arg_left, p.line, table) == seq![e]);
                assert(last_errs[0] == e);
            } else if p.instruction.arg_right == Some(SpecOperand::Symbol(name)) {
                let off = operand_errors(p.instruction.arg_left, p.line, table).len();
                assert(last_errs[off as int] == e);
            } else {
                let off = operand_errors(p.instruction.arg_left, p.line, table).len()
                    + operand_errors(p.instruction.arg_right, p.line, table).len();
                assert(last_errs[off as int] == e);
            }
        }
        let j0 = choose|j: int| 0 <= j < last_errs.len() && last_errs[j] == e;
        assert(errs[undefined_errors(prog.drop_last(), table).len() + j0] == e);
    } else {
        lemma_undefined_symbol_detected(prog.drop_last(), table, k, name);
        let sub = undefined_errors(prog.drop_last(), table);
        assert(prog.drop_last()[k] == prog[k]);
        let j0 = choose|j: int|
            0 <= j < sub.len() && sub[j] == SpecAsmError::UndefinedSymbol {
                name,
                line: prog.drop_last()[k].line,
            };
        assert(errs[j0] == sub[j0]);
    }
}

} // verus!
