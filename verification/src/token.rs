//! The token model: closed, exhaustively matchable representations of every
//! concept of the instruction set, each paired with its byte encoding.
//!
//! Binary layout of the flag byte (fixed, never reinterpreted):
//! bit 1 set when the instruction carries immediate operands, bit 2 set when
//! it carries two of them, bits 3-4 hold the width class of any immediate
//! (`00` = 8, `01` = 16, `10` = 32, `11` = 64 bits).  All other bits are
//! zero.

use vstd::prelude::*;
use crate::bytes::{
    be_bytes, be_encode, be_val, bytes_mod, lemma_be_bytes_len, lemma_be_round_trip_signed,
};

verus! {

/// Everything of the instruction set that has a fixed byte representation.
///
/// `spec_encode` is the mathematical statement of that representation;
/// `encode` computes it.
pub trait MachineEncodable {
    spec fn spec_encode(&self) -> Seq<u8>;

    fn encode(&self) -> (r: Vec<u8>)
        ensures
            r@ == self.spec_encode(),
    ;
}

/// The width class of an immediate operand, in bits.
#[derive(Debug, Clone, Copy, PartialEq, Eq, Structural)]
pub enum Width {
    W64,
    W32,
    W16,
    W8,
}

impl Width {
    /// The width class packed into bits 3-4 of the flag byte.
    pub open spec fn spec_bits(self) -> u8 {
        match self {
            Width::W64 => 0b00011000,
            Width::W32 => 0b00010000,
            Width::W16 => 0b00001000,
            Width::W8 => 0b00000000,
        }
    }

    /// How many bytes an immediate of this width occupies.
    pub open spec fn spec_byte_len(self) -> nat {
        match self {
            Width::W64 => 8,
            Width::W32 => 4,
            Width::W16 => 2,
            Width::W8 => 1,
        }
    }

    /// How many bytes an immediate of this width occupies.
    pub fn byte_len(&self) -> (r: usize)
        ensures
            r as nat == self.spec_byte_len(),
    {
        match self {
            Width::W64 => 8,
            Width::W32 => 4,
            Width::W16 => 2,
            Width::W8 => 1,
        }
    }
}

impl MachineEncodable for Width {
    open spec fn spec_encode(&self) -> Seq<u8> {
        seq![self.spec_bits()]
    }

    fn encode(&self) -> (r: Vec<u8>) {
        let b: u8 = match self {
            Width::W64 => 0b00011000,
            Width::W32 => 0b00010000,
            Width::W16 => 0b00001000,
            Width::W8 => 0b00000000,
        };
        let mut r: Vec<u8> = Vec::new();
        r.push(b);
        proof {
            assert(r@ =~= self.spec_encode());
        }
        r
    }
}

/// How many of an instruction's input operands are immediates rather than
/// registers, and at what width.
#[derive(Debug, Clone, Copy, PartialEq, Eq, Structural)]
pub enum ImmFlag {
    NoImmediate,
    SingleImmediate(Width),
    DoubleImmediate(Width),
}

impl ImmFlag {
    /// The flag byte: immediate-count bits 1-2 combined with the width bits.
    pub open spec fn spec_bits(self) -> u8 {
        match self {
            ImmFlag::NoImmediate => 0b00000000,
            ImmFlag::SingleImmediate(w) => (0b00000010 + w.spec_bits()) as u8,
            ImmFlag::DoubleImmediate(w) => (0b00000110 + w.spec_bits()) as u8,
        }
    }

    /// How many input operands this flag declares to be immediates.
    pub open spec fn spec_imm_count(self) -> nat {
        match self {
            ImmFlag::NoImmediate => 0,
            ImmFlag::SingleImmediate(_) => 1,
            ImmFlag::DoubleImmediate(_) => 2,
        }
    }

    /// The width class of the declared immediates; `W8` when there are none.
    pub open spec fn spec_width(self) -> Width {
        match self {
            ImmFlag::NoImmediate => Width::W8,
            ImmFlag::SingleImmediate(w) => w,
            ImmFlag::DoubleImmediate(w) => w,
        }
    }

    /// How many input operands this flag declares to be immediates, as
    /// executable code.
    pub fn imm_count(&self) -> (r: usize)
        ensures
            r as nat == self.spec_imm_count(),
    {
        match self {
            ImmFlag::NoImmediate => 0,
            ImmFlag::SingleImmediate(_) => 1,
            ImmFlag::DoubleImmediate(_) => 2,
        }
    }

    /// The width class of the declared immediates, as executable code.
    pub fn width(&self) -> (r: Width)
        ensures
            r == self.spec_width(),
    {
        match self {
            ImmFlag::NoImmediate => Width::W8,
            ImmFlag::SingleImmediate(w) => *w,
            ImmFlag::DoubleImmediate(w) => *w,
        }
    }

    /// The flag byte as executable code.
    pub fn bits(&self) -> (r: u8)
        ensures
            r == self.spec_bits(),
    {
        match self {
            ImmFlag::NoImmediate => 0b00000000,
            ImmFlag::SingleImmediate(w) => {
                let mut e = w.encode();
                0b00000010 + e[0]
            },
            ImmFlag::DoubleImmediate(w) => {
                let mut e = w.encode();
                0b00000110 + e[0]
            },
        }
    }
}

impl MachineEncodable for ImmFlag {
    open spec fn spec_encode(&self) -> Seq<u8> {
        seq![self.spec_bits()]
    }

    fn encode(&self) -> (r: Vec<u8>) {
        let b = self.bits();
        let mut r: Vec<u8> = Vec::new();
        r.push(b);
        proof {
            assert(r@ =~= self.spec_encode());
        }
        r
    }
}

/// One case per mnemonic.  Every case except the two zero-operand forms
/// (`Ret` and `Jmp`) carries the immediate shape of its input operands.
#[derive(Debug, Clone, Copy, PartialEq, Eq, Structural)]
pub enum OpCode {
    Mov(ImmFlag),
    Ret,
    Call(ImmFlag),
    Not(ImmFlag),
    And(ImmFlag),
    Nand(ImmFlag),
    Or(ImmFlag),
    Nor(ImmFlag),
    Xor(ImmFlag),
    Xnor(ImmFlag),
    Shl(ImmFlag),
    Shr(ImmFlag),
    Rol(ImmFlag),
    Ror(ImmFlag),
    Neg(ImmFlag),
    Inc(ImmFlag),
    Dec(ImmFlag),
    Add(ImmFlag),
    Sub(ImmFlag),
    Mul(ImmFlag),
    Div(ImmFlag),
    Mod(ImmFlag),
    Jmp,
    JmpEq(ImmFlag),
    JmpNeq(ImmFlag),
    JmpGt(ImmFlag),
    JmpGte(ImmFlag),
    JmpLt(ImmFlag),
    JmpLte(ImmFlag),
}

impl OpCode {
    /// The numeric code of the mnemonic: stable, densely assigned upward
    /// from zero.
    pub open spec fn spec_num(self) -> u8 {
        match self {
            OpCode::Mov(_) => 0x00,
            OpCode::Ret => 0x01,
            OpCode::Call(_) => 0x02,
            OpCode::Not(_) => 0x03,
            OpCode::And(_) => 0x04,
            OpCode::Nand(_) => 0x05,
            OpCode::Or(_) => 0x06,
            OpCode::Nor(_) => 0x07,
            OpCode::Xor(_) => 0x08,
            OpCode::Xnor(_) => 0x09,
            OpCode::Shl(_) => 0x0A,
            OpCode::Shr(_) => 0x0B,
            OpCode::Rol(_) => 0x0C,
            OpCode::Ror(_) => 0x0D,
            OpCode::Neg(_) => 0x0E,
            OpCode::Inc(_) => 0x0F,
            OpCode::Dec(_) => 0x10,
            OpCode::Add(_) => 0x11,
            OpCode::Sub(_) => 0x12,
            OpCode::Mul(_) => 0x13,
            OpCode::Div(_) => 0x14,
            OpCode::Mod(_) => 0x15,
            OpCode::Jmp => 0x16,
            OpCode::JmpEq(_) => 0x17,
            OpCode::JmpNeq(_) => 0x18,
            OpCode::JmpGt(_) => 0x19,
            OpCode::JmpGte(_) => 0x1A,
            OpCode::JmpLt(_) => 0x1B,
            OpCode::JmpLte(_) => 0x1C,
        }
    }

    /// The immediate shape the mnemonic was parsed with; `None` for the two
    /// zero-operand forms.
    pub open spec fn spec_imm_flag(self) -> Option<ImmFlag> {
        match self {
            OpCode::Ret | OpCode::Jmp => None,
            OpCode::Mov(f) | OpCode::Call(f) | OpCode::Not(f) | OpCode::And(f) | OpCode::Nand(f)
                | OpCode::Or(f) | OpCode::Nor(f) | OpCode::Xor(f) | OpCode::Xnor(f)
                | OpCode::Shl(f) | OpCode::Shr(f) | OpCode::Rol(f) | OpCode::Ror(f)
                | OpCode::Neg(f) | OpCode::Inc(f) | OpCode::Dec(f) | OpCode::Add(f)
                | OpCode::Sub(f) | OpCode::Mul(f) | OpCode::Div(f) | OpCode::Mod(f)
                | OpCode::JmpEq(f) | OpCode::JmpNeq(f) | OpCode::JmpGt(f) | OpCode::JmpGte(f)
                | OpCode::JmpLt(f) | OpCode::JmpLte(f) => Some(f),
        }
    }

    /// The flag byte of the instruction header: zero for the zero-operand
    /// forms.
    pub open spec fn spec_flag_bits(self) -> u8 {
        match self.spec_imm_flag() {
            None => 0,
            Some(f) => f.spec_bits(),
        }
    }

    /// Whether the mnemonic accepts the immediate shape it was parsed with.
    /// The single-input mnemonics (`Mov`, `Call`, `Not`, `Neg`, `Inc`,
    /// `Dec`) cannot take two immediates; every other combination is
    /// accepted.
    pub open spec fn spec_shape_supported(self) -> bool {
        match self {
            OpCode::Mov(f) | OpCode::Call(f) | OpCode::Not(f) | OpCode::Neg(f) | OpCode::Inc(f)
                | OpCode::Dec(f) => !(f is DoubleImmediate),
            _ => true,
        }
    }

    /// The numeric code of the mnemonic as executable code.
    pub fn num(&self) -> (r: u8)
        ensures
            r == self.spec_num(),
    {
        match self {
            OpCode::Mov(_) => 0x00,
            OpCode::Ret => 0x01,
            OpCode::Call(_) => 0x02,
            OpCode::Not(_) => 0x03,
            OpCode::And(_) => 0x04,
            OpCode::Nand(_) => 0x05,
            OpCode::Or(_) => 0x06,
            OpCode::Nor(_) => 0x07,
            OpCode::Xor(_) => 0x08,
            OpCode::Xnor(_) => 0x09,
            OpCode::Shl(_) => 0x0A,
            OpCode::Shr(_) => 0x0B,
            OpCode::Rol(_) => 0x0C,
            OpCode::Ror(_) => 0x0D,
            OpCode::Neg(_) => 0x0E,
            OpCode::Inc(_) => 0x0F,
            OpCode::Dec(_) => 0x10,
            OpCode::Add(_) => 0x11,
            OpCode::Sub(_) => 0x12,
            OpCode::Mul(_) => 0x13,
            OpCode::Div(_) => 0x14,
            OpCode::Mod(_) => 0x15,
            OpCode::Jmp => 0x16,
            OpCode::JmpEq(_) => 0x17,
            OpCode::JmpNeq(_) => 0x18,
            OpCode::JmpGt(_) => 0x19,
            OpCode::JmpGte(_) => 0x1A,
            OpCode::JmpLt(_) => 0x1B,
            OpCode::JmpLte(_) => 0x1C,
        }
    }

    /// The immediate shape as executable code.
    pub fn imm_flag(&self) -> (r: Option<ImmFlag>)
        ensures
            r == self.spec_imm_flag(),
    {
        match self {
            OpCode::Ret | OpCode::Jmp => None,
            OpCode::Mov(f) | OpCode::Call(f) | OpCode::Not(f) | OpCode::And(f) | OpCode::Nand(f)
                | OpCode::Or(f) | OpCode::Nor(f) | OpCode::Xor(f) | OpCode::Xnor(f)
                | OpCode::Shl(f) | OpCode::Shr(f) | OpCode::Rol(f) | OpCode::Ror(f)
                | OpCode::Neg(f) | OpCode::Inc(f) | OpCode::Dec(f) | OpCode::Add(f)
                | OpCode::Sub(f) | OpCode::Mul(f) | OpCode::Div(f) | OpCode::Mod(f)
                | OpCode::JmpEq(f) | OpCode::JmpNeq(f) | OpCode::JmpGt(f) | OpCode::JmpGte(f)
                | OpCode::JmpLt(f) | OpCode::JmpLte(f) => Some(*f),
        }
    }

    /// Whether the mnemonic accepts its immediate shape, as executable code.
    pub fn shape_supported(&self) -> (r: bool)
        ensures
            r == self.spec_shape_supported(),
    {
        match self {
            OpCode::Mov(f) | OpCode::Call(f) | OpCode::Not(f) | OpCode::Neg(f) | OpCode::Inc(f)
                | OpCode::Dec(f) => !matches!(f, ImmFlag::DoubleImmediate(_)),
            _ => true,
        }
    }
}

impl MachineEncodable for OpCode {
    open spec fn spec_encode(&self) -> Seq<u8> {
        seq![self.spec_num(), self.spec_flag_bits()]
    }

    fn encode(&self) -> (r: Vec<u8>) {
        let flag_byte: u8 = match self.imm_flag() {
            None => 0,
            Some(f) => f.bits(),
        };
        let mut r: Vec<u8> = Vec::new();
        r.push(self.num());
        r.push(flag_byte);
        proof {
            assert(r@ =~= self.spec_encode());
        }
        r
    }
}

/// One of the sixteen machine registers.
#[derive(Debug, Clone, Copy, PartialEq, Eq, Structural)]
pub enum Register {
    R0,
    R1,
    R2,
    R3,
    R4,
    R5,
    R6,
    R7,
    R8,
    R9,
    R10,
    R11,
    R12,
    R13,
    R14,
    R15,
}

impl Register {
    /// The ordinal of the register: its single encoded byte.
    pub open spec fn spec_num(self) -> u8 {
        match self {
            Register::R0 => 0x00,
            Register::R1 => 0x01,
            Register::R2 => 0x02,
            Register::R3 => 0x03,
            Register::R4 => 0x04,
            Register::R5 => 0x05,
            Register::R6 => 0x06,
            Register::R7 => 0x07,
            Register::R8 => 0x08,
            Register::R9 => 0x09,
            Register::R10 => 0x0A,
            Register::R11 => 0x0B,
            Register::R12 => 0x0C,
            Register::R13 => 0x0D,
            Register::R14 => 0x0E,
            Register::R15 => 0x0F,
        }
    }

    /// The ordinal of the register as executable code.
    pub fn num(&self) -> (r: u8)
        ensures
            r == self.spec_num(),
    {
        match self {
            Register::R0 => 0x00,
            Register::R1 => 0x01,
            Register::R2 => 0x02,
            Register::R3 => 0x03,
            Register::R4 => 0x04,
            Register::R5 => 0x05,
            Register::R6 => 0x06,
            Register::R7 => 0x07,
            Register::R8 => 0x08,
            Register::R9 => 0x09,
            Register::R10 => 0x0A,
            Register::R11 => 0x0B,
            Register::R12 => 0x0C,
            Register::R13 => 0x0D,
            Register::R14 => 0x0E,
            Register::R15 => 0x0F,
        }
    }
}

impl MachineEncodable for Register {
    open spec fn spec_encode(&self) -> Seq<u8> {
        seq![self.spec_num()]
    }

    fn encode(&self) -> (r: Vec<u8>) {
        let b = self.num();
        let mut r: Vec<u8> = Vec::new();
        r.push(b);
        proof {
            assert(r@ =~= self.spec_encode());
        }
        r
    }
}

/// A signed integer literal operand.
///
/// It encodes to a fixed-size big-endian byte sequence whose length is
/// determined by the width under which it is used, never by its own
/// magnitude; the value is truncated to that width.
#[derive(Debug, Clone, Copy, PartialEq, Eq, Structural)]
pub struct IntLiteral {
    pub value: i64,
}

impl From<i64> for IntLiteral {
    fn from(value: i64) -> (r: Self) {
        IntLiteral { value }
    }
}

impl vstd::std_specs::convert::FromSpecImpl<i64> for IntLiteral {
    open spec fn obeys_from_spec() -> bool {
        true
    }

    open spec fn from_spec(value: i64) -> IntLiteral {
        IntLiteral { value }
    }
}

impl IntLiteral {
    /// The big-endian bytes of the literal truncated to width `w`.
    pub open spec fn spec_encode_width(self, w: Width) -> Seq<u8> {
        be_bytes((self.value as u64) as nat, w.spec_byte_len())
    }

    /// Encodes the literal at width `w`: exactly `w / 8` bytes, big-endian,
    /// truncated to the width.
    pub fn encode_width(&self, w: Width) -> (r: Vec<u8>)
        ensures
            r@ == self.spec_encode_width(w),
            r.len() == w.spec_byte_len(),
    {
        be_encode(self.value as u64, w.byte_len())
    }
}

/// Width fidelity: a literal encoded at width `w` occupies exactly
/// `w / 8` bytes, and reading those bytes back big-endian yields the
/// literal's value reduced modulo `2^w` — its two's-complement residue,
/// never more or fewer bytes than the width dictates.
pub proof fn lemma_width_fidelity(l: IntLiteral, w: Width)
    ensures
        l.spec_encode_width(w).len() == w.spec_byte_len(),
        be_val(l.spec_encode_width(w)) == (l.value as int) % (bytes_mod(w.spec_byte_len()) as int),
{
    lemma_be_bytes_len((l.value as u64) as nat, w.spec_byte_len());
    lemma_be_round_trip_signed(l.value, w.spec_byte_len());
}

impl MachineEncodable for IntLiteral {
    open spec fn spec_encode(&self) -> Seq<u8> {
        self.spec_encode_width(Width::W64)
    }

    fn encode(&self) -> (r: Vec<u8>) {
        self.encode_width(Width::W64)
    }
}

/// A symbolic reference to a label, legal only before resolution.
#[derive(Debug, PartialEq, Eq)]
pub struct Constant {
    pub name: String,
}

impl Clone for Constant {
    fn clone(&self) -> (r: Self)
        ensures
            r == *self,
    {
        Constant { name: self.name.clone() }
    }
}

/// A label: a name bound, exactly once, to the address of the next
/// instruction after it in program order.
#[derive(Debug, PartialEq, Eq)]
pub struct Label {
    pub name: String,
    pub resolved_address: Option<usize>,
}

impl Label {
    /// A freshly encountered label, not yet bound to an address.
    pub fn new(name: String) -> (r: Self)
        ensures
            r.name == name,
            r.resolved_address is None,
    {
        Label { name, resolved_address: None }
    }

    /// Binds the label to its address.  The address is set exactly once.
    pub fn resolve(&mut self, address: usize)
        requires
            old(self).resolved_address is None,
        ensures
            final(self).name == old(self).name,
            final(self).resolved_address == Some(address),
    {
        self.resolved_address = Some(address);
    }
}

impl Clone for Label {
    fn clone(&self) -> (r: Self)
        ensures
            r == *self,
    {
        Label { name: self.name.clone(), resolved_address: self.resolved_address }
    }
}

/// An input operand before resolution: a register, an integer literal, or a
/// still-symbolic reference.
#[derive(Debug, PartialEq, Eq)]
pub enum Operand {
    Symbol(Constant),
    Reg(Register),
    Lit(IntLiteral),
}

impl Clone for Operand {
    fn clone(&self) -> (r: Self)
        ensures
            r == *self,
    {
        match self {
            Operand::Symbol(c) => Operand::Symbol(c.clone()),
            Operand::Reg(g) => Operand::Reg(*g),
            Operand::Lit(l) => Operand::Lit(*l),
        }
    }
}

/// A destination operand before resolution: a register or a still-symbolic
/// reference, never a literal.
#[derive(Debug, PartialEq, Eq)]
pub enum OutOperand {
    Symbol(Constant),
    Reg(Register),
}

impl Clone for OutOperand {
    fn clone(&self) -> (r: Self)
        ensures
            r == *self,
    {
        match self {
            OutOperand::Symbol(c) => OutOperand::Symbol(c.clone()),
            OutOperand::Reg(g) => OutOperand::Reg(*g),
        }
    }
}

/// An instruction as parsed: its operands may still hold symbolic
/// references.
#[derive(Debug, PartialEq, Eq)]
pub struct Instruction {
    pub opcode: OpCode,
    pub arg_left: Option<Operand>,
    pub arg_right: Option<Operand>,
    pub arg_out: Option<OutOperand>,
}

impl Clone for Instruction {
    fn clone(&self) -> (r: Self)
        ensures
            r == *self,
    {
        Instruction {
            opcode: self.opcode,
            arg_left: clone_operand_option(&self.arg_left),
            arg_right: clone_operand_option(&self.arg_right),
            arg_out: clone_out_operand_option(&self.arg_out),
        }
    }
}

fn clone_operand_option(o: &Option<Operand>) -> (r: Option<Operand>)
    ensures
        r == *o,
{
    match o {
        None => None,
        Some(x) => Some(x.clone()),
    }
}

fn clone_out_operand_option(o: &Option<OutOperand>) -> (r: Option<OutOperand>)
    ensures
        r == *o,
{
    match o {
        None => None,
        Some(x) => Some(x.clone()),
    }
}

/// An instruction together with the index of the source line it was
/// parsed from; the program is the ordered sequence of these.
#[derive(Debug, PartialEq, Eq)]
pub struct PlacedInstruction {
    pub instruction: Instruction,
    pub line: usize,
}

impl Clone for PlacedInstruction {
    fn clone(&self) -> (r: Self)
        ensures
            r == *self,
    {
        PlacedInstruction { instruction: self.instruction.clone(), line: self.line }
    }
}

/// The mathematical shape of an instruction with its source line.
pub struct SpecPlacedInstruction {
    pub instruction: SpecInstruction,
    pub line: int,
}

/// The mathematical shape of an input operand: label names as character
/// sequences.
pub enum SpecOperand {
    Symbol(Seq<char>),
    Reg(Register),
    Lit(IntLiteral),
}

/// The mathematical shape of a destination operand.
pub enum SpecOutOperand {
    Symbol(Seq<char>),
    Reg(Register),
}

/// The mathematical shape of a parsed instruction.
pub struct SpecInstruction {
    pub opcode: OpCode,
    pub arg_left: Option<SpecOperand>,
    pub arg_right: Option<SpecOperand>,
    pub arg_out: Option<SpecOutOperand>,
}

impl View for Operand {
    type V = SpecOperand;

    open spec fn view(&self) -> SpecOperand {
        match self {
            Operand::Symbol(c) => SpecOperand::Symbol(c.name@),
            Operand::Reg(g) => SpecOperand::Reg(*g),
            Operand::Lit(l) => SpecOperand::Lit(*l),
        }
    }
}

impl DeepView for Operand {
    type V = SpecOperand;

    open spec fn deep_view(&self) -> SpecOperand {
        self.view()
    }
}

impl View for OutOperand {
    type V = SpecOutOperand;

    open spec fn view(&self) -> SpecOutOperand {
        match self {
            OutOperand::Symbol(c) => SpecOutOperand::Symbol(c.name@),
            OutOperand::Reg(g) => SpecOutOperand::Reg(*g),
        }
    }
}

impl DeepView for OutOperand {
    type V = SpecOutOperand;

    open spec fn deep_view(&self) -> SpecOutOperand {
        self.view()
    }
}

impl View for Instruction {
    type V = SpecInstruction;

    open spec fn view(&self) -> SpecInstruction {
        SpecInstruction {
            opcode: self.opcode,
            arg_left: self.arg_left.deep_view(),
            arg_right: self.arg_right.deep_view(),
            arg_out: self.arg_out.deep_view(),
        }
    }
}

impl DeepView for Instruction {
    type V = SpecInstruction;

    open spec fn deep_view(&self) -> SpecInstruction {
        self.view()
    }
}

impl View for PlacedInstruction {
    type V = SpecPlacedInstruction;

    open spec fn view(&self) -> SpecPlacedInstruction {
        SpecPlacedInstruction { instruction: self.instruction.view(), line: self.line as int }
    }
}

impl DeepView for PlacedInstruction {
    type V = SpecPlacedInstruction;

    open spec fn deep_view(&self) -> SpecPlacedInstruction {
        self.view()
    }
}

} // verus!
