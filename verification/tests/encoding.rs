//! Byte-level tests of the token encodings and the big-endian packing.

use assembler::bytes::{be_decode, be_encode};
use assembler::token::{ImmFlag, IntLiteral, MachineEncodable, OpCode, Register, Width};

#[test]
fn width_flag_bits_occupy_bits_three_and_four() {
    assert_eq!(Width::W8.encode(), vec![0b00000000]);
    assert_eq!(Width::W16.encode(), vec![0b00001000]);
    assert_eq!(Width::W32.encode(), vec![0b00010000]);
    assert_eq!(Width::W64.encode(), vec![0b00011000]);
}

#[test]
fn immediate_flag_byte_combines_count_and_width() {
    assert_eq!(ImmFlag::NoImmediate.encode(), vec![0b00000000]);
    assert_eq!(ImmFlag::SingleImmediate(Width::W8).encode(), vec![0b00000010]);
    assert_eq!(ImmFlag::SingleImmediate(Width::W32).encode(), vec![0b00010010]);
    assert_eq!(ImmFlag::DoubleImmediate(Width::W16).encode(), vec![0b00001110]);
    assert_eq!(ImmFlag::DoubleImmediate(Width::W64).encode(), vec![0b00011110]);
}

#[test]
fn opcode_bytes_are_densely_assigned() {
    assert_eq!(OpCode::Mov(ImmFlag::NoImmediate).encode(), vec![0x00, 0x00]);
    assert_eq!(OpCode::Ret.encode(), vec![0x01, 0x00]);
    assert_eq!(OpCode::Call(ImmFlag::SingleImmediate(Width::W8)).encode(), vec![0x02, 0x02]);
    assert_eq!(OpCode::Mod(ImmFlag::NoImmediate).encode(), vec![0x15, 0x00]);
    assert_eq!(OpCode::Jmp.encode(), vec![0x16, 0x00]);
    assert_eq!(OpCode::JmpLte(ImmFlag::DoubleImmediate(Width::W64)).encode(), vec![0x1C, 0x1E]);
}

#[test]
fn register_bytes_are_their_ordinals() {
    assert_eq!(Register::R0.encode(), vec![0x00]);
    assert_eq!(Register::R7.encode(), vec![0x07]);
    assert_eq!(Register::R15.encode(), vec![0x0F]);
}

#[test]
fn a_literal_occupies_exactly_the_width_in_bytes() {
    let v = IntLiteral::from(0x0102i64);
    assert_eq!(v.encode_width(Width::W8), vec![0x02]);
    assert_eq!(v.encode_width(Width::W16), vec![0x01, 0x02]);
    assert_eq!(v.encode_width(Width::W32), vec![0x00, 0x00, 0x01, 0x02]);
    assert_eq!(v.encode_width(Width::W64), vec![0, 0, 0, 0, 0, 0, 0x01, 0x02]);
}

#[test]
fn a_literal_encodes_big_endian() {
    let v = IntLiteral::from(0x0A0B0C0Di64);
    assert_eq!(v.encode_width(Width::W32), vec![0x0A, 0x0B, 0x0C, 0x0D]);
    assert_eq!(v.encode(), vec![0, 0, 0, 0, 0x0A, 0x0B, 0x0C, 0x0D]);
}

#[test]
fn a_negative_literal_is_truncated_to_its_width() {
    assert_eq!(IntLiteral::from(-1i64).encode_width(Width::W8), vec![0xFF]);
    assert_eq!(IntLiteral::from(-2i64).encode_width(Width::W16), vec![0xFF, 0xFE]);
    assert_eq!(
        IntLiteral::from(-1i64).encode_width(Width::W64),
        vec![0xFF; 8],
    );
}

#[test]
fn encoding_then_decoding_reduces_the_value_modulo_the_width() {
    // 300 does not fit in 8 bits: the byte holds 300 mod 256.
    let bytes = IntLiteral::from(300i64).encode_width(Width::W8);
    assert_eq!(bytes.len(), 1);
    assert_eq!(be_decode(&bytes), 300 % 256);

    // A value that fits comes back unchanged.
    let bytes = IntLiteral::from(54321i64).encode_width(Width::W16);
    assert_eq!(bytes.len(), 2);
    assert_eq!(be_decode(&bytes), 54321);

    // A negative value comes back as its two's-complement residue.
    let bytes = IntLiteral::from(-1i64).encode_width(Width::W32);
    assert_eq!(bytes.len(), 4);
    assert_eq!(be_decode(&bytes), 0xFFFF_FFFF);
}

#[test]
fn be_encode_and_decode_agree_on_plain_values() {
    assert_eq!(be_encode(0x0102, 2), vec![0x01, 0x02]);
    assert_eq!(be_encode(0, 0), Vec::<u8>::new());
    assert_eq!(be_decode(&[0x01, 0x02]), 258);
    assert_eq!(be_decode(&[]), 0);
    assert_eq!(be_decode(&be_encode(u64::MAX, 8)), u64::MAX);
}

#[test]
fn from_keeps_the_value() {
    assert_eq!(IntLiteral::from(42i64), IntLiteral { value: 42 });
    assert_eq!(IntLiteral::from(-7i64).value, -7);
}
