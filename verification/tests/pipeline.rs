//! End-to-end tests of the assembler pipeline: label collection,
//! resolution, encoding, and the error taxonomy.

use assembler::assemble::{assemble, pass1, SourceLine};
use assembler::errors::AsmError;
use assembler::token::{
    Constant, ImmFlag, Instruction, Label, OpCode, Operand, OutOperand, Register, Width,
};

fn mov_imm8(value: i64, dst: Register) -> Instruction {
    Instruction {
        opcode: OpCode::Mov(ImmFlag::SingleImmediate(Width::W8)),
        arg_left: Some(Operand::Lit(value.into())),
        arg_right: None,
        arg_out: Some(OutOperand::Reg(dst)),
    }
}

fn jmp_to(label: &str) -> Instruction {
    Instruction {
        opcode: OpCode::Jmp,
        arg_left: None,
        arg_right: None,
        arg_out: Some(OutOperand::Symbol(Constant { name: label.to_string() })),
    }
}

fn ret() -> Instruction {
    Instruction { opcode: OpCode::Ret, arg_left: None, arg_right: None, arg_out: None }
}

#[test]
fn mov_then_jmp_to_start_resolves_and_encodes() {
    // Source:  start:\n  mov 5, R0\n  jmp start
    let lines = vec![
        SourceLine::LabelDef("start".to_string()),
        SourceLine::Inst(mov_imm8(5, Register::R0)),
        SourceLine::Inst(jmp_to("start")),
    ];
    let (table, program, errors) = pass1(&lines);
    assert!(errors.is_empty());
    assert_eq!(program.len(), 2);
    assert_eq!(table.lookup("start"), Some(0));

    let image = assemble(&lines).expect("the program resolves");
    // mov: opcode 0x00, flag single-immediate 8-bit, literal 5, register R0.
    // jmp: opcode 0x16, flag 0, destination address 0 as eight big-endian bytes.
    assert_eq!(
        image,
        vec![0x00, 0x02, 0x05, 0x00, 0x16, 0x00, 0, 0, 0, 0, 0, 0, 0, 0],
    );
    // The second instruction's operand bytes are the big-endian encoding of
    // address zero.
    assert_eq!(&image[6..], &[0u8; 8]);
}

#[test]
fn encoding_the_same_program_twice_is_byte_identical() {
    let lines = vec![
        SourceLine::LabelDef("start".to_string()),
        SourceLine::Inst(mov_imm8(5, Register::R0)),
        SourceLine::Inst(jmp_to("start")),
        SourceLine::Inst(ret()),
    ];
    let first = assemble(&lines).expect("the program resolves");
    let second = assemble(&lines).expect("the program resolves");
    assert_eq!(first, second);
}

#[test]
fn label_addresses_count_preceding_instruction_lines_only() {
    let lines = vec![
        SourceLine::LabelDef("a".to_string()),
        SourceLine::Inst(ret()),
        SourceLine::Inst(ret()),
        SourceLine::LabelDef("b".to_string()),
        SourceLine::LabelDef("c".to_string()),
        SourceLine::Inst(ret()),
        SourceLine::LabelDef("d".to_string()),
    ];
    let (table, program, errors) = pass1(&lines);
    assert!(errors.is_empty());
    assert_eq!(program.len(), 3);
    assert_eq!(table.lookup("a"), Some(0));
    assert_eq!(table.lookup("b"), Some(2));
    assert_eq!(table.lookup("c"), Some(2));
    assert_eq!(table.lookup("d"), Some(3));
    assert_eq!(table.lookup("e"), None);
}

#[test]
fn undefined_symbol_yields_exactly_one_error_and_no_bytes() {
    let lines = vec![SourceLine::Inst(jmp_to("foo"))];
    let errors = assemble(&lines).expect_err("the reference is undefined");
    assert_eq!(
        errors,
        vec![AsmError::UndefinedSymbol { name: "foo".to_string(), line: 0 }],
    );
}

#[test]
fn every_undefined_symbol_is_reported_in_order() {
    let lines = vec![
        SourceLine::Inst(jmp_to("foo")),
        SourceLine::Inst(ret()),
        SourceLine::Inst(jmp_to("bar")),
    ];
    let errors = assemble(&lines).expect_err("two references are undefined");
    assert_eq!(
        errors,
        vec![
            AsmError::UndefinedSymbol { name: "foo".to_string(), line: 0 },
            AsmError::UndefinedSymbol { name: "bar".to_string(), line: 2 },
        ],
    );
}

#[test]
fn duplicate_label_is_an_error_not_a_silent_rebind() {
    let lines = vec![
        SourceLine::LabelDef("here".to_string()),
        SourceLine::Inst(ret()),
        SourceLine::LabelDef("here".to_string()),
        SourceLine::Inst(jmp_to("here")),
    ];
    let errors = assemble(&lines).expect_err("the label is defined twice");
    assert_eq!(
        errors,
        vec![AsmError::DuplicateLabel { name: "here".to_string(), line: 2 }],
    );
}

#[test]
fn syntax_errors_are_collected_across_the_whole_source() {
    let lines = vec![
        SourceLine::ParseFailure,
        SourceLine::Inst(ret()),
        SourceLine::ParseFailure,
    ];
    let errors = assemble(&lines).expect_err("two lines fail to parse");
    assert_eq!(
        errors,
        vec![AsmError::SyntaxError { line: 0 }, AsmError::SyntaxError { line: 2 }],
    );
}

#[test]
fn pass1_errors_stop_the_pipeline_before_resolution() {
    // Both a duplicate label and an undefined reference: only the pass-1
    // diagnostic is reported, since resolution never runs past it.
    let lines = vec![
        SourceLine::LabelDef("x".to_string()),
        SourceLine::LabelDef("x".to_string()),
        SourceLine::Inst(jmp_to("nowhere")),
    ];
    let errors = assemble(&lines).expect_err("pass 1 fails");
    assert_eq!(
        errors,
        vec![AsmError::DuplicateLabel { name: "x".to_string(), line: 1 }],
    );
}

#[test]
fn unsupported_double_immediate_aborts_without_partial_bytes() {
    // mov accepts at most a single immediate; parsed with a double shape
    // it must fail, emitting nothing.
    let bad = Instruction {
        opcode: OpCode::Mov(ImmFlag::DoubleImmediate(Width::W8)),
        arg_left: Some(Operand::Lit(1i64.into())),
        arg_right: Some(Operand::Lit(2i64.into())),
        arg_out: Some(OutOperand::Reg(Register::R1)),
    };
    let lines = vec![SourceLine::Inst(ret()), SourceLine::Inst(bad)];
    let errors = assemble(&lines).expect_err("the shape is unsupported");
    assert_eq!(
        errors,
        vec![
            AsmError::UnsupportedImmediateShape {
                opcode: OpCode::Mov(ImmFlag::DoubleImmediate(Width::W8)),
                address: 1,
            },
        ],
    );
}

#[test]
fn immediate_shape_must_agree_with_the_operands_present() {
    // A single-immediate shape with no literal operand at all.
    let bad = Instruction {
        opcode: OpCode::Add(ImmFlag::SingleImmediate(Width::W8)),
        arg_left: Some(Operand::Reg(Register::R1)),
        arg_right: Some(Operand::Reg(Register::R2)),
        arg_out: Some(OutOperand::Reg(Register::R3)),
    };
    let lines = vec![SourceLine::Inst(bad)];
    let errors = assemble(&lines).expect_err("the shape disagrees");
    assert_eq!(
        errors,
        vec![
            AsmError::UnsupportedImmediateShape {
                opcode: OpCode::Add(ImmFlag::SingleImmediate(Width::W8)),
                address: 0,
            },
        ],
    );
}

#[test]
fn symbol_in_an_input_operand_becomes_an_immediate_address() {
    // call takes its target as a single 8-bit immediate here; the symbol
    // resolves to address 1 and lands in the operand byte.
    let call = Instruction {
        opcode: OpCode::Call(ImmFlag::SingleImmediate(Width::W8)),
        arg_left: Some(Operand::Symbol(Constant { name: "end".to_string() })),
        arg_right: None,
        arg_out: None,
    };
    let lines = vec![
        SourceLine::Inst(call),
        SourceLine::LabelDef("end".to_string()),
        SourceLine::Inst(ret()),
    ];
    let image = assemble(&lines).expect("the program resolves");
    assert_eq!(image, vec![0x02, 0x02, 0x01, 0x01, 0x00]);
}

#[test]
fn an_empty_source_assembles_to_an_empty_image() {
    let lines: Vec<SourceLine> = Vec::new();
    assert_eq!(assemble(&lines), Ok(Vec::new()));
}

#[test]
fn double_immediate_on_a_binary_opcode_encodes_both_literals() {
    let add = Instruction {
        opcode: OpCode::Add(ImmFlag::DoubleImmediate(Width::W16)),
        arg_left: Some(Operand::Lit(0x0102i64.into())),
        arg_right: Some(Operand::Lit((-1i64).into())),
        arg_out: Some(OutOperand::Reg(Register::R4)),
    };
    let lines = vec![SourceLine::Inst(add)];
    let image = assemble(&lines).expect("the program encodes");
    // opcode 0x11, flag double 16-bit (0b00001110), 0x0102 big-endian,
    // -1 truncated to 16 bits, destination register ordinal.
    assert_eq!(image, vec![0x11, 0x0E, 0x01, 0x02, 0xFF, 0xFF, 0x04]);
}

#[test]
fn a_label_records_its_address_exactly_once() {
    let mut label = Label::new("loop_top".to_string());
    assert_eq!(label.resolved_address, None);
    label.resolve(7);
    assert_eq!(label.resolved_address, Some(7));
    assert_eq!(label.name, "loop_top");
}
