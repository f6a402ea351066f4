//! Pass 1 and the driver.
//!
//! Pass 1 walks the per-line parse results in source order, keeping a
//! running instruction counter that starts at zero: a label definition
//! binds the label to the counter's current value and consumes no
//! address; an instruction joins the program and advances the counter; a
//! line that parsed as neither is a syntax error.  The driver then runs
//! resolution and encoding, and each stage's errors, collected in full,
//! stop the pipeline before the next stage.

use vstd::prelude::*;
use crate::token::{Instruction, Label, PlacedInstruction, SpecInstruction, SpecPlacedInstruction};
use crate::symtab::SymbolTable;
use crate::errors::{AsmError, SpecAsmError};
use crate::resolve::{resolve_program, spec_resolve_program, undefined_errors};
use crate::encode::{encode_program, encoding_errors, spec_image};

verus! {

/// One line of source, as classified by the external line-level front
/// end: a label definition, an instruction, or a line that parsed as
/// neither.  Its position in the sequence is its line number.
#[derive(Debug, PartialEq, Eq)]
pub enum SourceLine {
    LabelDef(String),
    Inst(Instruction),
    ParseFailure,
}

impl Clone for SourceLine {
    fn clone(&self) -> (r: Self)
        ensures
            r == *self,
    {
        match self {
            SourceLine::LabelDef(n) => SourceLine::LabelDef(n.clone()),
            SourceLine::Inst(i) => SourceLine::Inst(i.clone()),
            SourceLine::ParseFailure => SourceLine::ParseFailure,
        }
    }
}

/// The mathematical shape of a classified source line.
pub enum SpecSourceLine {
    LabelDef(Seq<char>),
    Inst(SpecInstruction),
    ParseFailure,
}

impl View for SourceLine {
    type V = SpecSourceLine;

    open spec fn view(&self) -> SpecSourceLine {
        match self {
            SourceLine::LabelDef(n) => SpecSourceLine::LabelDef(n@),
            SourceLine::Inst(i) => SpecSourceLine::Inst(i@),
            SourceLine::ParseFailure => SpecSourceLine::ParseFailure,
        }
    }
}

impl DeepView for SourceLine {
    type V = SpecSourceLine;

    open spec fn deep_view(&self) -> SpecSourceLine {
        self.view()
    }
}

/// How many instruction lines the sequence holds; label definitions and
/// failed lines contribute nothing.
pub open spec fn instr_count(lines: Seq<SpecSourceLine>) -> nat
    decreases lines.len(),
{
    if lines.len() == 0 {
        0
    } else {
        instr_count(lines.drop_last()) + match lines.last() {
            SpecSourceLine::Inst(_) => 1nat,
            _ => 0nat,
        }
    }
}

/// The symbol table pass 1 builds: each label name bound, at its first
/// definition, to the number of instruction lines strictly before it.  A
/// later definition of the same name never overwrites the first.
pub open spec fn spec_labels(lines: Seq<SpecSourceLine>) -> Map<Seq<char>, usize>
    decreases lines.len(),
{
    if lines.len() == 0 {
        Map::empty()
    } else {
        let m = spec_labels(lines.drop_last());
        match lines.last() {
            SpecSourceLine::LabelDef(n) => if m.contains_key(n) {
                m
            } else {
                m.insert(n, instr_count(lines.drop_last()) as usize)
            },
            _ => m,
        }
    }
}

/// The program pass 1 builds: the instruction lines in source order, each
/// carrying its line number.
pub open spec fn spec_program(lines: Seq<SpecSourceLine>) -> Seq<SpecPlacedInstruction>
    decreases lines.len(),
{
    if lines.len() == 0 {
        Seq::empty()
    } else {
        spec_program(lines.drop_last()) + match lines.last() {
            SpecSourceLine::Inst(i) => seq![
                SpecPlacedInstruction { instruction: i, line: lines.len() - 1 },
            ],
            _ => Seq::empty(),
        }
    }
}

/// The diagnostics of pass 1, in line order: a syntax error for every
/// line that parsed as neither form, a duplicate-label error for every
/// definition of an already-present name.
pub open spec fn pass1_errors(lines: Seq<SpecSourceLine>) -> Seq<SpecAsmError>
    decreases lines.len(),
{
    if lines.len() == 0 {
        Seq::empty()
    } else {
        pass1_errors(lines.drop_last()) + match lines.last() {
            SpecSourceLine::ParseFailure => seq![
                SpecAsmError::SyntaxError { line: lines.len() - 1 },
            ],
            SpecSourceLine::LabelDef(n) => if spec_labels(lines.drop_last()).contains_key(n) {
                seq![SpecAsmError::DuplicateLabel { name: n, line: lines.len() - 1 }]
            } else {
                Seq::empty()
            },
            _ => Seq::empty(),
        }
    }
}

/// The instruction count never exceeds the line count.
pub proof fn lemma_instr_count_bound(lines: Seq<SpecSourceLine>)
    ensures
        instr_count(lines) <= lines.len(),
    decreases lines.len(),
{
    if lines.len() > 0 {
        lemma_instr_count_bound(lines.drop_last());
    }
}

/// Pass 1: label collection.
///
/// Returns the symbol table, the program (instructions whose operands may
/// still be symbolic, each with its line number), and the full list of
/// syntax and duplicate-label diagnostics.
pub fn pass1(lines: &Vec<SourceLine>) -> (r: (SymbolTable, Vec<PlacedInstruction>, Vec<AsmError>))
    ensures
        r.0@ == spec_labels(lines.deep_view()),
        r.1.deep_view() == spec_program(lines.deep_view()),
        r.2.deep_view() == pass1_errors(lines.deep_view()),
{
    let ghost all = lines.deep_view();
    let mut table = SymbolTable::new();
    let mut program: Vec<PlacedInstruction> = Vec::new();
    let mut errors: Vec<AsmError> = Vec::new();
    let mut counter: usize = 0;
    let mut i: usize = 0;
    proof {
        assert(all.take(0) =~= Seq::<SpecSourceLine>::empty());
        assert(program.deep_view() =~= Seq::<SpecPlacedInstruction>::empty());
        assert(errors.deep_view() =~= Seq::<SpecAsmError>::empty());
    }
    while i < lines.len()
        invariant
            i <= lines.len(),
            all == lines.deep_view(),
            counter <= i,
            counter as nat == instr_count(all.take(i as int)),
            table@ == spec_labels(all.take(i as int)),
            program.deep_view() == spec_program(all.take(i as int)),
            errors.deep_view() == pass1_errors(all.take(i as int)),
        decreases lines.len() - i,
    {
        let ghost prefix = all.take(i as int);
        proof {
            assert(all.take(i + 1).drop_last() =~= prefix);
            assert(all.take(i + 1).last() == lines[i as int].deep_view());
        }
        match &lines[i] {
            SourceLine::LabelDef(name) => {
                if table.contains(name.as_str()) {
                    errors.push(AsmError::DuplicateLabel { name: name.clone(), line: i });
                } else {
                    let mut label = Label::new(name.clone());
                    label.resolve(counter);
                    table.define(label);
                }
                proof {
                    assert(program.deep_view() =~= spec_program(all.take(i + 1)));
                    assert(errors.deep_view() =~= pass1_errors(all.take(i + 1)));
                }
            },
            SourceLine::Inst(ins) => {
                program.push(PlacedInstruction { instruction: ins.clone(), line: i });
                counter = counter + 1;
                proof {
                    assert(program.deep_view() =~= spec_program(all.take(i + 1)));
                    assert(errors.deep_view() =~= pass1_errors(all.take(i + 1)));
                }
            },
            SourceLine::ParseFailure => {
                errors.push(AsmError::SyntaxError { line: i });
                proof {
                    assert(program.deep_view() =~= spec_program(all.take(i + 1)));
                    assert(errors.deep_view() =~= pass1_errors(all.take(i + 1)));
                }
            },
        }
        i = i + 1;
    }
    proof {
        assert(all.take(lines.len() as int) =~= all);
    }
    (table, program, errors)
}

/// The whole pipeline: label collection, resolution, encoding.
///
/// Succeeds with the final image exactly when no stage reports a
/// diagnostic; otherwise fails with the complete diagnostic list of the
/// first stage that reported any, and no stage runs past an error-laden
/// one.
pub fn assemble(lines: &Vec<SourceLine>) -> (r: Result<Vec<u8>, Vec<AsmError>>)
    ensures
        ({
            let l = lines.deep_view();
            let first = pass1_errors(l);
            let prog = spec_program(l);
            let tab = spec_labels(l);
            let undef = undefined_errors(prog, tab);
            let ris = spec_resolve_program(prog, tab);
            let shape = encoding_errors(ris);
            &&& (first.len() > 0 ==> (r matches Err(es) && es.deep_view() == first))
            &&& (first.len() == 0 && undef.len() > 0 ==> (r matches Err(es) && es.deep_view()
                == undef))
            &&& (first.len() == 0 && undef.len() == 0 && shape.len() > 0 ==> (r matches Err(es)
                && es.deep_view() == shape))
            &&& (first.len() == 0 && undef.len() == 0 && shape.len() == 0 ==> (r matches Ok(bytes)
                && bytes@ == spec_image(ris)))
        }),
{
    let (table, program, errors) = pass1(lines);
    proof {
        assert(errors.deep_view().len() == errors@.len());
    }
    if errors.len() > 0 {
        return Err(errors);
    }
    match resolve_program(&program, &table) {
        Err(es) => Err(es),
        Ok(ris) => match encode_program(&ris) {
            Err(es) => Err(es),
            Ok(bytes) => Ok(bytes),
        },
    }
}

/// A name in the built symbol table was defined somewhere.
pub proof fn lemma_key_has_definition(lines: Seq<SpecSourceLine>, name: Seq<char>)
    requires
        spec_labels(lines).contains_key(name),
    ensures
        exists|j: int| 0 <= j < lines.len() && lines[j] == SpecSourceLine::LabelDef(name),
    decreases lines.len(),
{
    if lines.len() > 0 {
        let m = spec_labels(lines.drop_last());
        if m.contains_key(name) {
            lemma_key_has_definition(lines.drop_last(), name);
            let j0 = choose|j: int|
                0 <= j < lines.drop_last().len() && lines.drop_last()[j]
                    == SpecSourceLine::LabelDef(name);
            assert(lines[j0] == SpecSourceLine::LabelDef(name));
        } else {
            assert(lines.last() == SpecSourceLine::LabelDef(name));
            assert(lines[lines.len() - 1] == SpecSourceLine::LabelDef(name));
        }
    }
}

/// A definition puts its name into the built symbol table.
pub proof fn lemma_definition_gives_key(lines: Seq<SpecSourceLine>, k: int, name: Seq<char>)
    requires
        0 <= k < lines.len(),
        lines[k] == SpecSourceLine::LabelDef(name),
    ensures
        spec_labels(lines).contains_key(name),
    decreases lines.len(),
{
    if k < lines.len() - 1 {
        lemma_definition_gives_key(lines.drop_last(), k, name);
    }
}

/// Address monotonicity: the address a label resolves to, at its first
/// definition, is exactly the number of instruction lines strictly
/// preceding it in source order; label lines themselves contribute
/// nothing to the count.
pub proof fn lemma_label_address(lines: Seq<SpecSourceLine>, k: int, name: Seq<char>)
    requires
        lines.len() <= usize::MAX,
        0 <= k < lines.len(),
        lines[k] == SpecSourceLine::LabelDef(name),
        forall|j: int| 0 <= j < k ==> lines[j] != SpecSourceLine::LabelDef(name),
    ensures
        spec_labels(lines).contains_key(name),
        spec_labels(lines)[name] as nat == instr_count(lines.take(k)),
    decreases lines.len(),
{
    if k == lines.len() - 1 {
        let m = spec_labels(lines.drop_last());
        if m.contains_key(name) {
            lemma_key_has_definition(lines.drop_last(), name);
            let j0 = choose|j: int|
                0 <= j < lines.drop_last().len() && lines.drop_last()[j]
                    == SpecSourceLine::LabelDef(name);
            assert(lines[j0] == SpecSourceLine::LabelDef(name));
            assert(false);
        }
        assert(lines.drop_last() =~= lines.take(k));
        lemma_instr_count_bound(lines.take(k));
    } else {
        lemma_label_address(lines.drop_last(), k, name);
        assert(lines.drop_last().take(k) =~= lines.take(k));
        let m = spec_labels(lines.drop_last());
        match lines.last() {
            SpecSourceLine::LabelDef(n2) => {
                if n2 == name {
                    assert(spec_labels(lines) == m);
                } else if !m.contains_key(n2) {
                    assert(spec_labels(lines)[name] == m[name]);
                }
            },
            _ => {},
        }
    }
}

/// Duplicate-label detection: a second definition of an already-defined
/// name yields a `DuplicateLabel` diagnostic at the later line; neither
/// address silently wins.
pub proof fn lemma_duplicate_label_detected(
    lines: Seq<SpecSourceLine>,
    first_def: int,
    second_def: int,
    name: Seq<char>,
)
    requires
        0 <= first_def < second_def < lines.len(),
        lines[first_def] == SpecSourceLine::LabelDef(name),
        lines[second_def] == SpecSourceLine::LabelDef(name),
    ensures
        pass1_errors(lines).len() > 0,
        exists|j: int|
            0 <= j < pass1_errors(lines).len() && pass1_errors(lines)[j]
                == (SpecAsmError::DuplicateLabel { name, line: second_def }),
    decreases lines.len(),
{
    let errs = pass1_errors(lines);
    let e = SpecAsmError::DuplicateLabel { name, line: second_def };
    if second_def == lines.len() - 1 {
        assert(lines.drop_last()[first_def] == lines[first_def]);
        lemma_definition_gives_key(lines.drop_last(), first_def, name);
        let sub = pass1_errors(lines.drop_last());
        assert(errs[sub.len() as int] == e);
    } else {
        assert(lines.drop_last()[first_def] == lines[first_def]);
        assert(lines.drop_last()[second_def] == lines[second_def]);
        lemma_duplicate_label_detected(lines.drop_last(), first_def, second_def, name);
        let sub = pass1_errors(lines.drop_last());
        let j0 = choose|j: int| 0 <= j < sub.len() && sub[j] == e;
        assert(errs[j0] == sub[j0]);
    }
}

} // verus!
