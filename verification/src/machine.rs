//! The machine: a register file, a 64KB memory image, and the
//! fetch-decode-execute step.

pub mod alu;
pub mod instructions;
pub mod registers;

use vstd::prelude::*;

use self::alu::{
    acc_apply, add_hl, alu_apply, spec_acc_regs, spec_add_hl_regs, spec_alu_regs, spec_carry_in,
};
use self::instructions::{
    spec_encode, spec_r16_code, spec_r16_mem_code, spec_r16_mem_operand, spec_r16_operand,
    spec_r8_code, spec_r8_operand, DecodeFromU8, Instruction, OpCond, OpR16, OpR16Mem, OpR16Stk,
    OpR8,
};
use self::registers::{wrap_dec16, wrap_inc16, Flag, Register16, Register8, RegisterState};
use vstd::wrapping::{u16_specs, u64_specs};

verus! {

/// Size of the memory image: the full 16-bit address space.
pub const RAM_SIZE: usize = 0x10000;

/// Why a byte (or an operand field of it) does not decode to an instruction.
#[derive(Debug, Clone, Copy, PartialEq, Eq, Structural)]
pub enum DecodeError {
    /// An R8-selecting field outside 0..8. Defensive: a 3-bit field cannot
    /// produce it.
    InvalidR8,
    /// An R16-selecting field outside 0..4. Defensive: a 2-bit field cannot
    /// produce it.
    InvalidR16,
    /// The byte matches no instruction pattern: a genuinely undefined opcode.
    NoMatchingInstruction(u8),
}

/// True iff `value` agrees with `bits` on every bit position where `mask` is 1.
pub open spec fn spec_match_bits(value: u8, bits: u8, mask: u8) -> bool {
    value & mask == bits & mask
}

/// Bits `bits_start..=bits_end` of `value` (0 = least-significant bit),
/// shifted down so that bit `bits_start` becomes bit 0.
pub open spec fn spec_extract_bits(value: u8, bits_start: u8, bits_end: u8) -> u8
    recommends
        bits_start <= bits_end <= 7,
{
    (value >> bits_start) & (0xffu8 >> ((7 - bits_end + bits_start) as u8))
}

/// Masked-bit comparison: the decoder's sole means of recognizing opcode classes.
pub fn match_bits(value: u8, bits: u8, mask: u8) -> (r: bool)
    ensures
        r == spec_match_bits(value, bits, mask),
{
    proof {
        assert(((value & mask) ^ (bits & mask)) == 0 <==> (value & mask) == (bits & mask))
            by (bit_vector);
    }
    ((value & mask) ^ (bits & mask)) == 0
}

/// Extracts bits `bits_start..=bits_end` of `value` (inclusive, 0 = least-significant
/// bit) and shifts them down to the bottom of the byte.
pub fn extract_bits(value: u8, bits_start: u8, bits_end: u8) -> (r: u8)
    requires
        bits_start <= bits_end,
        bits_end <= 7,
    ensures
        r == spec_extract_bits(value, bits_start, bits_end),
{
    proof {
        assert((value << ((7 - bits_end) as u8)) >> ((7 - bits_end + bits_start) as u8)
            == (value >> bits_start) & (0xffu8 >> ((7 - bits_end + bits_start) as u8)))
            by (bit_vector)
            requires
                bits_start <= bits_end <= 7,
        ;
    }
    (value << (7 - bits_end)) >> (7 - bits_end + bits_start)
}

/// The little-endian 16-bit value with low byte `lo` and high byte `hi`.
pub open spec fn spec_word(lo: u8, hi: u8) -> u16 {
    (lo as u16) | ((hi as u16) << 8)
}

/// The bit operation a byte after the 0xCB prefix selects: the top two bits
/// pick rotate/shift/swap, bit-test, reset or set; bits 3..5 the operation
/// or the bit index; bits 0..2 the R8 operand. Every prefixed byte is defined.
pub open spec fn spec_decode_cb(sub: u8) -> Instruction {
    let r = spec_r8_operand(spec_extract_bits(sub, 0, 2));
    let sel = spec_extract_bits(sub, 3, 5);
    if spec_match_bits(sub, 0x00, 0xc0) {
        if sel == 0 {
            Instruction::RlcR8(r)
        } else if sel == 1 {
            Instruction::RrcR8(r)
        } else if sel == 2 {
            Instruction::RlR8(r)
        } else if sel == 3 {
            Instruction::RrR8(r)
        } else if sel == 4 {
            Instruction::SlaR8(r)
        } else if sel == 5 {
            Instruction::SraR8(r)
        } else if sel == 6 {
            Instruction::SwapR8(r)
        } else {
            Instruction::SrlR8(r)
        }
    } else if spec_match_bits(sub, 0x40, 0xc0) {
        Instruction::BitB3R8(sel, r)
    } else if spec_match_bits(sub, 0x80, 0xc0) {
        Instruction::ResB3R8(sel, r)
    } else {
        Instruction::SetB3R8(sel, r)
    }
}

/// The instruction a raw opcode byte classifies to, with `lo` and `hi` the
/// next two bytes (consumed only where the encoding has operand bytes or the
/// 0xCB prefix). The top two bits pick an encoding block; masked-bit tests
/// and exact matches inside the block resolve the mnemonic and the operand
/// fields. Exactly the eleven undefined opcode bytes fail every test.
pub open spec fn spec_decode(b: u8, lo: u8, hi: u8) -> Result<Instruction, DecodeError> {
    let imm16 = spec_word(lo, hi);
    if spec_match_bits(b, 0x00, 0xc0) {
        // Block 0 (top bits 00)
        if b == 0 {
            Ok(Instruction::Nop)
        } else if spec_match_bits(b, 0x01, 0x0f) {
            Ok(Instruction::LdR16Imm16(spec_r16_operand(spec_extract_bits(b, 4, 5))))
        } else if spec_match_bits(b, 0x02, 0x0f) {
            Ok(Instruction::LdR16MemA(spec_r16_mem_operand(spec_extract_bits(b, 4, 5))))
        } else if spec_match_bits(b, 0x0a, 0x0f) {
            Ok(Instruction::LdAR16Mem(spec_r16_mem_operand(spec_extract_bits(b, 4, 5))))
        } else if b == 0x08 {
            Ok(Instruction::LdImm16SP)
        } else if spec_match_bits(b, 0x03, 0x0f) {
            Ok(Instruction::IncR16(spec_r16_operand(spec_extract_bits(b, 4, 5))))
        } else if spec_match_bits(b, 0x0b, 0x0f) {
            Ok(Instruction::DecR16(spec_r16_operand(spec_extract_bits(b, 4, 5))))
        } else if spec_match_bits(b, 0x09, 0x0f) {
            Ok(Instruction::AddHlR16(spec_r16_operand(spec_extract_bits(b, 4, 5))))
        } else if b == 0x10 {
            Ok(Instruction::Stop)
        } else if b == 0x18 {
            Ok(Instruction::JrImm8)
        } else if b == 0x20 {
            Ok(Instruction::JrCondImm8(OpCond::NZ))
        } else if b == 0x28 {
            Ok(Instruction::JrCondImm8(OpCond::Z))
        } else if b == 0x30 {
            Ok(Instruction::JrCondImm8(OpCond::NC))
        } else if b == 0x38 {
            Ok(Instruction::JrCondImm8(OpCond::C))
        } else if spec_match_bits(b, 0x04, 0x07) {
            Ok(Instruction::IncR8(spec_r8_operand(spec_extract_bits(b, 3, 5))))
        } else if spec_match_bits(b, 0x05, 0x07) {
            Ok(Instruction::DecR8(spec_r8_operand(spec_extract_bits(b, 3, 5))))
        } else if spec_match_bits(b, 0x06, 0x07) {
            Ok(Instruction::LdR8Imm8(spec_r8_operand(spec_extract_bits(b, 3, 5))))
        } else if b == 0x07 {
            Ok(Instruction::Rlca)
        } else if b == 0x0f {
            Ok(Instruction::Rrca)
        } else if b == 0x17 {
            Ok(Instruction::Rla)
        } else if b == 0x1f {
            Ok(Instruction::Rra)
        } else if b == 0x27 {
            Ok(Instruction::Daa)
        } else if b == 0x2f {
            Ok(Instruction::Cpl)
        } else if b == 0x37 {
            Ok(Instruction::Scf)
        } else if b == 0x3f {
            Ok(Instruction::Ccf)
        } else {
            Err(DecodeError::NoMatchingInstruction(b))
        }
    } else if spec_match_bits(b, 0x40, 0xc0) {
        // Block 1 (top bits 01): ld r8, r8; the slot where both operands
        // would be HL-indirect is halt
        if b == 0x76 {
            Ok(Instruction::Halt)
        } else {
            Ok(
                Instruction::LdR8R8(
                    spec_r8_operand(spec_extract_bits(b, 3, 5)),
                    spec_r8_operand(spec_extract_bits(b, 0, 2)),
                ),
            )
        }
    } else if spec_match_bits(b, 0x80, 0xc0) {
        // Block 2 (top bits 10): 8-bit ALU, bits 3..5 pick the operation,
        // bits 0..2 the R8 operand
        let operand = spec_r8_operand(spec_extract_bits(b, 0, 2));
        if spec_match_bits(b, 0x00, 0x38) {
            Ok(Instruction::AddAR8(operand))
        } else if spec_match_bits(b, 0x08, 0x38) {
            Ok(Instruction::AdcAR8(operand))
        } else if spec_match_bits(b, 0x10, 0x38) {
            Ok(Instruction::SubAR8(operand))
        } else if spec_match_bits(b, 0x18, 0x38) {
            Ok(Instruction::SbcAR8(operand))
        } else if spec_match_bits(b, 0x20, 0x38) {
            Ok(Instruction::AndAR8(operand))
        } else if spec_match_bits(b, 0x28, 0x38) {
            Ok(Instruction::XorAR8(operand))
        } else if spec_match_bits(b, 0x30, 0x38) {
            Ok(Instruction::OrAR8(operand))
        } else if spec_match_bits(b, 0x38, 0x38) {
            Ok(Instruction::CpAR8(operand))
        } else {
            Err(DecodeError::NoMatchingInstruction(b))
        }
    } else {
        // Block 3 (top bits 11): the prefix, control flow, stack and
        // immediate-operand instructions, each at its exact byte; what is
        // left over is one of the eleven genuinely undefined opcodes
        if b == 0xcb {
            Ok(spec_decode_cb(lo))
        } else if b == 0xc3 {
            Ok(Instruction::JpImm16(imm16))
        } else if b == 0xc9 {
            Ok(Instruction::Ret)
        } else if b == 0xcd {
            Ok(Instruction::CallImm16(imm16))
        } else if b == 0xd9 {
            Ok(Instruction::Reti)
        } else if b == 0xe0 {
            Ok(Instruction::LdhImm8A(lo))
        } else if b == 0xe2 {
            Ok(Instruction::LdhCA)
        } else if b == 0xe8 {
            Ok(Instruction::AddSpImm8)
        } else if b == 0xe9 {
            Ok(Instruction::JpHl)
        } else if b == 0xea {
            Ok(Instruction::LdImm16A(imm16))
        } else if b == 0xf0 {
            Ok(Instruction::LdhAImm8(lo))
        } else if b == 0xf2 {
            Ok(Instruction::LdhAC)
        } else if b == 0xf3 {
            Ok(Instruction::Di)
        } else if b == 0xf8 {
            Ok(Instruction::LdHlSpImm8)
        } else if b == 0xf9 {
            Ok(Instruction::LdSpHl)
        } else if b == 0xfa {
            Ok(Instruction::LdAImm16(imm16))
        } else if b == 0xfb {
            Ok(Instruction::Ei)
        } else if b == 0xc6 {
            Ok(Instruction::AddAImm8)
        } else if b == 0xce {
            Ok(Instruction::AdcAImm8)
        } else if b == 0xd6 {
            Ok(Instruction::SubAImm8)
        } else if b == 0xde {
            Ok(Instruction::SbcAImm8)
        } else if b == 0xe6 {
            Ok(Instruction::AndAImm8)
        } else if b == 0xee {
            Ok(Instruction::XorAImm8)
        } else if b == 0xf6 {
            Ok(Instruction::OrAImm8)
        } else if b == 0xfe {
            Ok(Instruction::CpAImm8)
        } else if b == 0xc0 {
            Ok(Instruction::RetCond(OpCond::NZ))
        } else if b == 0xc8 {
            Ok(Instruction::RetCond(OpCond::Z))
        } else if b == 0xd0 {
            Ok(Instruction::RetCond(OpCond::NC))
        } else if b == 0xd8 {
            Ok(Instruction::RetCond(OpCond::C))
        } else if b == 0xc2 {
            Ok(Instruction::JpCondImm16(OpCond::NZ, imm16))
        } else if b == 0xca {
            Ok(Instruction::JpCondImm16(OpCond::Z, imm16))
        } else if b == 0xd2 {
            Ok(Instruction::JpCondImm16(OpCond::NC, imm16))
        } else if b == 0xda {
            Ok(Instruction::JpCondImm16(OpCond::C, imm16))
        } else if b == 0xc4 {
            Ok(Instruction::CallCondImm16(OpCond::NZ, imm16))
        } else if b == 0xcc {
            Ok(Instruction::CallCondImm16(OpCond::Z, imm16))
        } else if b == 0xd4 {
            Ok(Instruction::CallCondImm16(OpCond::NC, imm16))
        } else if b == 0xdc {
            Ok(Instruction::CallCondImm16(OpCond::C, imm16))
        } else if b == 0xc7 {
            Ok(Instruction::RstTgt3(0))
        } else if b == 0xcf {
            Ok(Instruction::RstTgt3(1))
        } else if b == 0xd7 {
            Ok(Instruction::RstTgt3(2))
        } else if b == 0xdf {
            Ok(Instruction::RstTgt3(3))
        } else if b == 0xe7 {
            Ok(Instruction::RstTgt3(4))
        } else if b == 0xef {
            Ok(Instruction::RstTgt3(5))
        } else if b == 0xf7 {
            Ok(Instruction::RstTgt3(6))
        } else if b == 0xff {
            Ok(Instruction::RstTgt3(7))
        } else if b == 0xc1 {
            Ok(Instruction::Pop(OpR16Stk::BC))
        } else if b == 0xd1 {
            Ok(Instruction::Pop(OpR16Stk::DE))
        } else if b == 0xe1 {
            Ok(Instruction::Pop(OpR16Stk::HL))
        } else if b == 0xf1 {
            Ok(Instruction::Pop(OpR16Stk::AF))
        } else if b == 0xc5 {
            Ok(Instruction::Push(OpR16Stk::BC))
        } else if b == 0xd5 {
            Ok(Instruction::Push(OpR16Stk::DE))
        } else if b == 0xe5 {
            Ok(Instruction::Push(OpR16Stk::HL))
        } else if b == 0xf5 {
            Ok(Instruction::Push(OpR16Stk::AF))
        } else {
            Err(DecodeError::NoMatchingInstruction(b))
        }
    }
}

/// Decodes a byte after the 0xCB prefix; every such byte is defined.
pub fn decode_cb_opcode(sub: u8) -> (r: Instruction)
    ensures
        r == spec_decode_cb(sub),
{
    proof {
        assert(spec_extract_bits(sub, 0, 2) < 8 && spec_extract_bits(sub, 3, 5) < 8)
            by (bit_vector);
    }
    let r = match extract_bits(sub, 0, 2) {
        0 => OpR8::B,
        1 => OpR8::C,
        2 => OpR8::D,
        3 => OpR8::E,
        4 => OpR8::H,
        5 => OpR8::L,
        6 => OpR8::HL,
        _ => OpR8::A,
    };
    let sel = extract_bits(sub, 3, 5);
    if match_bits(sub, 0x00, 0xc0) {
        if sel == 0 {
            Instruction::RlcR8(r)
        } else if sel == 1 {
            Instruction::RrcR8(r)
        } else if sel == 2 {
            Instruction::RlR8(r)
        } else if sel == 3 {
            Instruction::RrR8(r)
        } else if sel == 4 {
            Instruction::SlaR8(r)
        } else if sel == 5 {
            Instruction::SraR8(r)
        } else if sel == 6 {
            Instruction::SwapR8(r)
        } else {
            Instruction::SrlR8(r)
        }
    } else if match_bits(sub, 0x40, 0xc0) {
        Instruction::BitB3R8(sel, r)
    } else if match_bits(sub, 0x80, 0xc0) {
        Instruction::ResB3R8(sel, r)
    } else {
        Instruction::SetB3R8(sel, r)
    }
}

/// Classifies one opcode byte, reading the two bytes after it only where the
/// encoding has operand bytes or the 0xCB prefix. Pure: touches no machine
/// state.
pub fn decode_opcode(byte_inst: u8, lo: u8, hi: u8) -> (r: Result<Instruction, DecodeError>)
    ensures
        r == spec_decode(byte_inst, lo, hi),
{
    proof {
        assert(spec_extract_bits(byte_inst, 4, 5) < 4 && spec_extract_bits(byte_inst, 0, 2) < 8
            && spec_extract_bits(byte_inst, 3, 5) < 8) by (bit_vector);
    }
    let imm16: u16 = (lo as u16) | ((hi as u16) << 8);
    // Block 0
    if match_bits(byte_inst, 0x00, 0xc0) {
        if byte_inst == 0 {
            Ok(Instruction::Nop)
        } else if match_bits(byte_inst, 0x01, 0x0f) {
            Ok(Instruction::LdR16Imm16(OpR16::decode_from(extract_bits(byte_inst, 4, 5))?))
        } else if match_bits(byte_inst, 0x02, 0x0f) {
            Ok(Instruction::LdR16MemA(OpR16Mem::decode_from(extract_bits(byte_inst, 4, 5))?))
        } else if match_bits(byte_inst, 0x0a, 0x0f) {
            Ok(Instruction::LdAR16Mem(OpR16Mem::decode_from(extract_bits(byte_inst, 4, 5))?))
        } else if byte_inst == 0x08 {
            Ok(Instruction::LdImm16SP)
        } else if match_bits(byte_inst, 0x03, 0x0f) {
            Ok(Instruction::IncR16(OpR16::decode_from(extract_bits(byte_inst, 4, 5))?))
        } else if match_bits(byte_inst, 0x0b, 0x0f) {
            Ok(Instruction::DecR16(OpR16::decode_from(extract_bits(byte_inst, 4, 5))?))
        } else if match_bits(byte_inst, 0x09, 0x0f) {
            Ok(Instruction::AddHlR16(OpR16::decode_from(extract_bits(byte_inst, 4, 5))?))
        } else if byte_inst == 0x10 {
            Ok(Instruction::Stop)
        } else if byte_inst == 0x18 {
            Ok(Instruction::JrImm8)
        } else if byte_inst == 0x20 {
            Ok(Instruction::JrCondImm8(OpCond::NZ))
        } else if byte_inst == 0x28 {
            Ok(Instruction::JrCondImm8(OpCond::Z))
        } else if byte_inst == 0x30 {
            Ok(Instruction::JrCondImm8(OpCond::NC))
        } else if byte_inst == 0x38 {
            Ok(Instruction::JrCondImm8(OpCond::C))
        } else if match_bits(byte_inst, 0x04, 0x07) {
            Ok(Instruction::IncR8(OpR8::decode_from(extract_bits(byte_inst, 3, 5))?))
        } else if match_bits(byte_inst, 0x05, 0x07) {
            Ok(Instruction::DecR8(OpR8::decode_from(extract_bits(byte_inst, 3, 5))?))
        } else if match_bits(byte_inst, 0x06, 0x07) {
            Ok(Instruction::LdR8Imm8(OpR8::decode_from(extract_bits(byte_inst, 3, 5))?))
        } else if byte_inst == 0x07 {
            Ok(Instruction::Rlca)
        } else if byte_inst == 0x0f {
            Ok(Instruction::Rrca)
        } else if byte_inst == 0x17 {
            Ok(Instruction::Rla)
        } else if byte_inst == 0x1f {
            Ok(Instruction::Rra)
        } else if byte_inst == 0x27 {
            Ok(Instruction::Daa)
        } else if byte_inst == 0x2f {
            Ok(Instruction::Cpl)
        } else if byte_inst == 0x37 {
            Ok(Instruction::Scf)
        } else if byte_inst == 0x3f {
            Ok(Instruction::Ccf)
        } else {
            Err(DecodeError::NoMatchingInstruction(byte_inst))
        }
    } else if match_bits(byte_inst, 0x40, 0xc0) {
        // Block 1
        if byte_inst == 0x76 {
            Ok(Instruction::Halt)
        } else {
            Ok(
                Instruction::LdR8R8(
                    OpR8::decode_from(extract_bits(byte_inst, 3, 5))?,
                    OpR8::decode_from(extract_bits(byte_inst, 0, 2))?,
                ),
            )
        }
    } else if match_bits(byte_inst, 0x80, 0xc0) {
        // Block 2
        let operand = OpR8::decode_from(extract_bits(byte_inst, 0, 2))?;
        if match_bits(byte_inst, 0x00, 0x38) {
            Ok(Instruction::AddAR8(operand))
        } else if match_bits(byte_inst, 0x08, 0x38) {
            Ok(Instruction::AdcAR8(operand))
        } else if match_bits(byte_inst, 0x10, 0x38) {
            Ok(Instruction::SubAR8(operand))
        } else if match_bits(byte_inst, 0x18, 0x38) {
            Ok(Instruction::SbcAR8(operand))
        } else if match_bits(byte_inst, 0x20, 0x38) {
            Ok(Instruction::AndAR8(operand))
        } else if match_bits(byte_inst, 0x28, 0x38) {
            Ok(Instruction::XorAR8(operand))
        } else if match_bits(byte_inst, 0x30, 0x38) {
            Ok(Instruction::OrAR8(operand))
        } else if match_bits(byte_inst, 0x38, 0x38) {
            Ok(Instruction::CpAR8(operand))
        } else {
            Err(DecodeError::NoMatchingInstruction(byte_inst))
        }
    } else {
        // Block 3
        if byte_inst == 0xcb {
            Ok(decode_cb_opcode(lo))
        } else if byte_inst == 0xc3 {
            Ok(Instruction::JpImm16(imm16))
        } else if byte_inst == 0xc9 {
            Ok(Instruction::Ret)
        } else if byte_inst == 0xcd {
            Ok(Instruction::CallImm16(imm16))
        } else if byte_inst == 0xd9 {
            Ok(Instruction::Reti)
        } else if byte_inst == 0xe0 {
            Ok(Instruction::LdhImm8A(lo))
        } else if byte_inst == 0xe2 {
            Ok(Instruction::LdhCA)
        } else if byte_inst == 0xe8 {
            Ok(Instruction::AddSpImm8)
        } else if byte_inst == 0xe9 {
            Ok(Instruction::JpHl)
        } else if byte_inst == 0xea {
            Ok(Instruction::LdImm16A(imm16))
        } else if byte_inst == 0xf0 {
            Ok(Instruction::LdhAImm8(lo))
        } else if byte_inst == 0xf2 {
            Ok(Instruction::LdhAC)
        } else if byte_inst == 0xf3 {
            Ok(Instruction::Di)
        } else if byte_inst == 0xf8 {
            Ok(Instruction::LdHlSpImm8)
        } else if byte_inst == 0xf9 {
            Ok(Instruction::LdSpHl)
        } else if byte_inst == 0xfa {
            Ok(Instruction::LdAImm16(imm16))
        } else if byte_inst == 0xfb {
            Ok(Instruction::Ei)
        } else if byte_inst == 0xc6 {
            Ok(Instruction::AddAImm8)
        } else if byte_inst == 0xce {
            Ok(Instruction::AdcAImm8)
        } else if byte_inst == 0xd6 {
            Ok(Instruction::SubAImm8)
        } else if byte_inst == 0xde {
            Ok(Instruction::SbcAImm8)
        } else if byte_inst == 0xe6 {
            Ok(Instruction::AndAImm8)
        } else if byte_inst == 0xee {
            Ok(Instruction::XorAImm8)
        } else if byte_inst == 0xf6 {
            Ok(Instruction::OrAImm8)
        } else if byte_inst == 0xfe {
            Ok(Instruction::CpAImm8)
        } else if byte_inst == 0xc0 {
            Ok(Instruction::RetCond(OpCond::NZ))
        } else if byte_inst == 0xc8 {
            Ok(Instruction::RetCond(OpCond::Z))
        } else if byte_inst == 0xd0 {
            Ok(Instruction::RetCond(OpCond::NC))
        } else if byte_inst == 0xd8 {
            Ok(Instruction::RetCond(OpCond::C))
        } else if byte_inst == 0xc2 {
            Ok(Instruction::JpCondImm16(OpCond::NZ, imm16))
        } else if byte_inst == 0xca {
            Ok(Instruction::JpCondImm16(OpCond::Z, imm16))
        } else if byte_inst == 0xd2 {
            Ok(Instruction::JpCondImm16(OpCond::NC, imm16))
        } else if byte_inst == 0xda {
            Ok(Instruction::JpCondImm16(OpCond::C, imm16))
        } else if byte_inst == 0xc4 {
            Ok(Instruction::CallCondImm16(OpCond::NZ, imm16))
        } else if byte_inst == 0xcc {
            Ok(Instruction::CallCondImm16(OpCond::Z, imm16))
        } else if byte_inst == 0xd4 {
            Ok(Instruction::CallCondImm16(OpCond::NC, imm16))
        } else if byte_inst == 0xdc {
            Ok(Instruction::CallCondImm16(OpCond::C, imm16))
        } else if byte_inst == 0xc7 {
            Ok(Instruction::RstTgt3(0))
        } else if byte_inst == 0xcf {
            Ok(Instruction::RstTgt3(1))
        } else if byte_inst == 0xd7 {
            Ok(Instruction::RstTgt3(2))
        } else if byte_inst == 0xdf {
            Ok(Instruction::RstTgt3(3))
        } else if byte_inst == 0xe7 {
            Ok(Instruction::RstTgt3(4))
        } else if byte_inst == 0xef {
            Ok(Instruction::RstTgt3(5))
        } else if byte_inst == 0xf7 {
            Ok(Instruction::RstTgt3(6))
        } else if byte_inst == 0xff {
            Ok(Instruction::RstTgt3(7))
        } else if byte_inst == 0xc1 {
            Ok(Instruction::Pop(OpR16Stk::BC))
        } else if byte_inst == 0xd1 {
            Ok(Instruction::Pop(OpR16Stk::DE))
        } else if byte_inst == 0xe1 {
            Ok(Instruction::Pop(OpR16Stk::HL))
        } else if byte_inst == 0xf1 {
            Ok(Instruction::Pop(OpR16Stk::AF))
        } else if byte_inst == 0xc5 {
            Ok(Instruction::Push(OpR16Stk::BC))
        } else if byte_inst == 0xd5 {
            Ok(Instruction::Push(OpR16Stk::DE))
        } else if byte_inst == 0xe5 {
            Ok(Instruction::Push(OpR16Stk::HL))
        } else if byte_inst == 0xf5 {
            Ok(Instruction::Push(OpR16Stk::AF))
        } else {
            Err(DecodeError::NoMatchingInstruction(byte_inst))
        }
    }
}

/// The machine state the contracts speak of: the register file, the memory
/// image as a sequence of bytes, the cycle counter, the halt/stop suspension
/// flag and the interrupt master enable.
pub ghost struct MachineModel {
    pub regs: RegisterState,
    pub ram: Seq<u8>,
    pub cycles: u64,
    pub suspended: bool,
    pub ime: bool,
}

/// One SM83 core: a register file, the 64KB memory image it exclusively
/// owns, a running counter of emulated cycles, the suspended state that
/// `halt`/`stop` enter (cleared by `reti` or by a collaborator delivering an
/// interrupt), and the interrupt master enable that `ei`/`di`/`reti` toggle.
pub struct Machine {
    pub registers: RegisterState,
    pub ram: Vec<u8>,
    pub cycles: u64,
    pub suspended: bool,
    pub ime: bool,
}

impl View for Machine {
    type V = MachineModel;

    open spec fn view(&self) -> MachineModel {
        MachineModel {
            regs: self.registers,
            ram: self.ram@,
            cycles: self.cycles,
            suspended: self.suspended,
            ime: self.ime,
        }
    }
}

/// The 16-bit register an R16 operand selects.
pub open spec fn reg16_of(r: OpR16) -> Register16 {
    match r {
        OpR16::BC => Register16::BC,
        OpR16::DE => Register16::DE,
        OpR16::HL => Register16::HL,
        OpR16::SP => Register16::SP,
    }
}

fn reg16_register(r: &OpR16) -> (reg: Register16)
    ensures
        reg == reg16_of(*r),
{
    match r {
        OpR16::BC => Register16::BC,
        OpR16::DE => Register16::DE,
        OpR16::HL => Register16::HL,
        OpR16::SP => Register16::SP,
    }
}

/// The 16-bit register a stack-pair operand selects.
pub open spec fn reg16_of_stk(p: OpR16Stk) -> Register16 {
    match p {
        OpR16Stk::BC => Register16::BC,
        OpR16Stk::DE => Register16::DE,
        OpR16Stk::HL => Register16::HL,
        OpR16Stk::AF => Register16::AF,
    }
}

/// The value a stack-pair operand pushes.
pub open spec fn spec_stk_value(rs: RegisterState, p: OpR16Stk) -> u16 {
    match p {
        OpR16Stk::BC => rs.bc,
        OpR16Stk::DE => rs.de,
        OpR16Stk::HL => rs.hl,
        OpR16Stk::AF => rs.af,
    }
}

/// The address an R16Mem operand reads or writes: BC, DE, or HL for the two
/// post-adjusting modes.
pub open spec fn spec_mem_addr(rs: RegisterState, mm: OpR16Mem) -> u16 {
    match mm {
        OpR16Mem::BC => rs.bc,
        OpR16Mem::DE => rs.de,
        OpR16Mem::HLPlus => rs.hl,
        OpR16Mem::HLMinus => rs.hl,
    }
}

/// The register file after an R16Mem access: HL+ increments HL, HL-
/// decrements it, BC and DE leave everything alone.
pub open spec fn spec_mem_adjust(rs: RegisterState, mm: OpR16Mem) -> RegisterState {
    match mm {
        OpR16Mem::BC => rs,
        OpR16Mem::DE => rs,
        OpR16Mem::HLPlus => rs.spec_set_u16(Register16::HL, wrap_inc16(rs.hl)),
        OpR16Mem::HLMinus => rs.spec_set_u16(Register16::HL, wrap_dec16(rs.hl)),
    }
}

fn r16_mem_addr(rs: &RegisterState, mm: &OpR16Mem) -> (addr: u16)
    ensures
        addr == spec_mem_addr(*rs, *mm),
{
    match mm {
        OpR16Mem::BC => rs.get_u16(Register16::BC),
        OpR16Mem::DE => rs.get_u16(Register16::DE),
        OpR16Mem::HLPlus => rs.get_u16(Register16::HL),
        OpR16Mem::HLMinus => rs.get_u16(Register16::HL),
    }
}

/// Whether a branch condition holds of the current flags.
pub open spec fn spec_cond_holds(rs: RegisterState, c: OpCond) -> bool {
    match c {
        OpCond::NZ => !rs.spec_get_flag(Flag::Zero),
        OpCond::Z => rs.spec_get_flag(Flag::Zero),
        OpCond::NC => !rs.spec_get_flag(Flag::Carry),
        OpCond::C => rs.spec_get_flag(Flag::Carry),
    }
}

fn cond_holds(rs: &RegisterState, c: &OpCond) -> (r: bool)
    ensures
        r == spec_cond_holds(*rs, *c),
{
    match c {
        OpCond::NZ => !rs.get_flag(Flag::Zero),
        OpCond::Z => rs.get_flag(Flag::Zero),
        OpCond::NC => !rs.get_flag(Flag::Carry),
        OpCond::C => rs.get_flag(Flag::Carry),
    }
}

/// The value of an R8 operand in the machine model.
pub open spec fn spec_r8_value(m: MachineModel, r: OpR8) -> u8 {
    match r {
        OpR8::B => m.regs.spec_get_u8(Register8::B),
        OpR8::C => m.regs.spec_get_u8(Register8::C),
        OpR8::D => m.regs.spec_get_u8(Register8::D),
        OpR8::E => m.regs.spec_get_u8(Register8::E),
        OpR8::H => m.regs.spec_get_u8(Register8::H),
        OpR8::L => m.regs.spec_get_u8(Register8::L),
        OpR8::HL => m.ram[m.regs.hl as int],
        OpR8::A => m.regs.spec_get_u8(Register8::A),
    }
}

/// The machine after writing an R8 operand: a register byte, or the byte
/// addressed by HL for the HL-indirect operand.
pub open spec fn spec_set_r8_value(m: MachineModel, r: OpR8, v: u8) -> MachineModel {
    match r {
        OpR8::HL => MachineModel { ram: m.ram.update(m.regs.hl as int, v), ..m },
        OpR8::B => MachineModel { regs: m.regs.spec_set_u8(Register8::B, v), ..m },
        OpR8::C => MachineModel { regs: m.regs.spec_set_u8(Register8::C, v), ..m },
        OpR8::D => MachineModel { regs: m.regs.spec_set_u8(Register8::D, v), ..m },
        OpR8::E => MachineModel { regs: m.regs.spec_set_u8(Register8::E, v), ..m },
        OpR8::H => MachineModel { regs: m.regs.spec_set_u8(Register8::H, v), ..m },
        OpR8::L => MachineModel { regs: m.regs.spec_set_u8(Register8::L, v), ..m },
        OpR8::A => MachineModel { regs: m.regs.spec_set_u8(Register8::A, v), ..m },
    }
}

/// The byte one past PC, the imm8 operand position.
pub open spec fn spec_imm8(m: MachineModel) -> u8 {
    m.ram[u16_specs::wrapping_add(m.regs.pc, 1) as int]
}

/// The little-endian 16-bit immediate one and two bytes past PC.
pub open spec fn spec_imm16(m: MachineModel) -> u16 {
    spec_word(
        m.ram[u16_specs::wrapping_add(m.regs.pc, 1) as int],
        m.ram[u16_specs::wrapping_add(m.regs.pc, 2) as int],
    )
}

/// An imm8 sign-extended to 16 bits, the form the relative jumps and the two
/// SP-plus-offset instructions add.
pub open spec fn sign_ext16(v: u8) -> u16 {
    if v < 0x80 {
        v as u16
    } else {
        (v + 0xff00) as u16
    }
}

/// The machine after PC advances by the instruction's byte count and the
/// cycle counter by its cost, both wrapping.
pub open spec fn spec_advance(m: MachineModel, bytes: u16, cost: u64) -> MachineModel {
    MachineModel {
        regs: m.regs.spec_set_u16(Register16::PC, u16_specs::wrapping_add(m.regs.pc, bytes)),
        cycles: u64_specs::wrapping_add(m.cycles, cost),
        ..m
    }
}

/// The machine after a control transfer: PC set to `dest`, the cycle cost
/// added.
pub open spec fn spec_jump(m: MachineModel, dest: u16, cost: u64) -> MachineModel {
    MachineModel {
        regs: m.regs.spec_set_u16(Register16::PC, dest),
        cycles: u64_specs::wrapping_add(m.cycles, cost),
        ..m
    }
}

/// The machine after pushing a 16-bit value: SP drops by two (wrapping) and
/// the value is stored little-endian at the new SP.
pub open spec fn spec_push16(m: MachineModel, v: u16) -> MachineModel {
    let sp2 = u16_specs::wrapping_sub(m.regs.sp, 2);
    MachineModel {
        regs: m.regs.spec_set_u16(Register16::SP, sp2),
        ram: m.ram.update(sp2 as int, (v & 0x00ff) as u8).update(
            u16_specs::wrapping_add(sp2, 1) as int,
            (v >> 8) as u8,
        ),
        ..m
    }
}

/// The little-endian 16-bit value at the top of the stack.
pub open spec fn spec_stack_top16(m: MachineModel) -> u16 {
    spec_word(m.ram[m.regs.sp as int], m.ram[u16_specs::wrapping_add(m.regs.sp, 1) as int])
}

/// The machine after a 0xCB rotate/shift/swap writes back: the result stored
/// in the operand, Zero from the result, Subtraction and HalfCarry cleared,
/// Carry from the shifted-out bit.
pub open spec fn spec_cb_writeback(m: MachineModel, r: OpR8, res: u8, c: bool) -> MachineModel {
    let m1 = spec_set_r8_value(m, r, res);
    MachineModel {
        regs: m1.regs.spec_set_flag(Flag::Zero, res == 0).spec_set_flag(
            Flag::Subtraction,
            false,
        ).spec_set_flag(Flag::HalfCarry, false).spec_set_flag(Flag::Carry, c),
        ..m1
    }
}

/// The cycle cost of a 0xCB rotate/shift/swap/res/set: 16 through HL, 8 on a
/// register.
pub open spec fn spec_cb_cost(r: OpR8) -> u64 {
    if r == OpR8::HL {
        16
    } else {
        8
    }
}

impl Machine {
    /// The memory image always spans the full address space.
    pub open spec fn inv(&self) -> bool {
        self.ram@.len() == RAM_SIZE
    }

    /// A machine at power-on: registers zeroed, memory zero-filled, no cycles
    /// elapsed, not suspended, interrupts disabled.
    pub fn new() -> (m: Machine)
        ensures
            m.inv(),
            m@.regs == (RegisterState { af: 0, bc: 0, de: 0, hl: 0, sp: 0, pc: 0 }),
            m@.ram == Seq::new(RAM_SIZE as nat, |i: int| 0u8),
            m@.cycles == 0,
            !m@.suspended,
            !m@.ime,
    {
        let mut ram: Vec<u8> = Vec::with_capacity(RAM_SIZE);
        while ram.len() < RAM_SIZE
            invariant
                ram@.len() <= RAM_SIZE,
                forall|j: int| 0 <= j < ram@.len() ==> ram@[j] == 0u8,
            decreases RAM_SIZE - ram.len(),
        {
            ram.push(0);
        }
        let m = Machine {
            registers: RegisterState::new(),
            ram,
            cycles: 0,
            suspended: false,
            ime: false,
        };
        proof {
            assert(m@.ram =~= Seq::new(RAM_SIZE as nat, |i: int| 0u8));
        }
        m
    }

    /// Copies `initial_ram` into the start of the memory image, leaving the
    /// rest at its prior value; rejects an image larger than the memory.
    pub fn load_ram(&mut self, initial_ram: &[u8]) -> (r: Result<(), String>)
        requires
            old(self).inv(),
        ensures
            final(self).inv(),
            r is Ok <==> initial_ram@.len() <= old(self)@.ram.len(),
            r is Err ==> *final(self) == *old(self),
            r is Ok ==> final(self)@ == (MachineModel {
                ram: initial_ram@ + old(self)@.ram.skip(initial_ram@.len() as int),
                ..old(self)@
            }),
    {
        if initial_ram.len() > self.ram.len() {
            return Err("The initial RAM is too big.".to_string());
        }
        let mut i: usize = 0;
        while i < initial_ram.len()
            invariant
                i <= initial_ram@.len() <= self.ram@.len(),
                self.ram@.len() == old(self).ram@.len(),
                forall|j: int| 0 <= j < i ==> self.ram@[j] == initial_ram@[j],
                forall|j: int| i <= j < self.ram@.len() ==> self.ram@[j] == old(self).ram@[j],
                self.registers == old(self).registers,
                self.cycles == old(self).cycles,
                self.suspended == old(self).suspended,
                self.ime == old(self).ime,
            decreases initial_ram@.len() - i,
        {
            self.ram[i] = initial_ram[i];
            i += 1;
        }
        proof {
            assert(self@.ram =~= initial_ram@ + old(self)@.ram.skip(initial_ram@.len() as int));
        }
        Ok(())
    }

    /// The bus read: the byte at `addr`.
    pub fn read_ram(&self, addr: u16) -> (v: u8)
        requires
            self.inv(),
        ensures
            v == self@.ram[addr as int],
    {
        self.ram[addr as usize]
    }

    /// The bus write: stores `v` at `addr`, touching nothing else.
    pub fn write_ram(&mut self, addr: u16, v: u8)
        requires
            old(self).inv(),
        ensures
            final(self).inv(),
            final(self)@ == (MachineModel { ram: old(self)@.ram.update(addr as int, v), ..old(
                self,
            )@ }),
    {
        self.ram[addr as usize] = v;
    }

    /// Classifies the opcode byte at PC, with the two bytes past it as the
    /// operand bytes. Mutates no state, so decoding is side-effect-free and
    /// independently testable.
    pub fn decode_instruction(&self) -> (r: Result<Instruction, DecodeError>)
        requires
            self.inv(),
        ensures
            r == spec_decode_at(self@),
    {
        let pc = self.registers.get_u16(Register16::PC);
        let byte_inst = self.read_ram(pc);
        let lo = self.read_ram(pc.wrapping_add(1));
        let hi = self.read_ram(pc.wrapping_add(2));
        decode_opcode(byte_inst, lo, hi)
    }

    /// The imm8 operand: the byte one past PC.
    fn read_imm8(&self) -> (v: u8)
        requires
            self.inv(),
        ensures
            v == spec_imm8(self@),
    {
        let pc = self.registers.get_u16(Register16::PC);
        self.read_ram(pc.wrapping_add(1))
    }

    /// The little-endian 16-bit immediate: the bytes one and two past PC.
    fn read_imm16(&self) -> (v: u16)
        requires
            self.inv(),
        ensures
            v == spec_imm16(self@),
    {
        let pc = self.registers.get_u16(Register16::PC);
        let lo = self.read_ram(pc.wrapping_add(1));
        let hi = self.read_ram(pc.wrapping_add(2));
        (lo as u16) | ((hi as u16) << 8)
    }

    /// The value of an R8 operand: a register byte, or the byte addressed by
    /// HL for the HL-indirect operand.
    fn r8_value(&self, r: &OpR8) -> (v: u8)
        requires
            self.inv(),
        ensures
            v == spec_r8_value(self@, *r),
    {
        match r {
            OpR8::B => self.registers.get_u8(Register8::B),
            OpR8::C => self.registers.get_u8(Register8::C),
            OpR8::D => self.registers.get_u8(Register8::D),
            OpR8::E => self.registers.get_u8(Register8::E),
            OpR8::H => self.registers.get_u8(Register8::H),
            OpR8::L => self.registers.get_u8(Register8::L),
            OpR8::HL => self.read_ram(self.registers.get_u16(Register16::HL)),
            OpR8::A => self.registers.get_u8(Register8::A),
        }
    }

    /// Writes an R8 operand: a register byte, or the byte addressed by HL.
    fn set_r8_value(&mut self, r: &OpR8, v: u8)
        requires
            old(self).inv(),
        ensures
            final(self).inv(),
            final(self)@ == spec_set_r8_value(old(self)@, *r, v),
    {
        match r {
            OpR8::B => self.registers.set_u8(Register8::B, v),
            OpR8::C => self.registers.set_u8(Register8::C, v),
            OpR8::D => self.registers.set_u8(Register8::D, v),
            OpR8::E => self.registers.set_u8(Register8::E, v),
            OpR8::H => self.registers.set_u8(Register8::H, v),
            OpR8::L => self.registers.set_u8(Register8::L, v),
            OpR8::HL => {
                let hl = self.registers.get_u16(Register16::HL);
                self.write_ram(hl, v);
            },
            OpR8::A => self.registers.set_u8(Register8::A, v),
        }
    }

    /// Advances PC by the instruction's total byte count (wrapping) and adds
    /// its cycle cost to the running counter (wrapping).
    fn advance(&mut self, bytes: u16, cost: u64)
        requires
            old(self).inv(),
        ensures
            final(self).inv(),
            final(self)@ == spec_advance(old(self)@, bytes, cost),
    {
        let pc = self.registers.get_u16(Register16::PC);
        self.registers.set_u16(Register16::PC, pc.wrapping_add(bytes));
        self.cycles = self.cycles.wrapping_add(cost);
    }

    /// Redirects PC to `dest` and adds the cycle cost.
    fn jump(&mut self, dest: u16, cost: u64)
        requires
            old(self).inv(),
        ensures
            final(self).inv(),
            final(self)@ == spec_jump(old(self)@, dest, cost),
    {
        self.registers.set_u16(Register16::PC, dest);
        self.cycles = self.cycles.wrapping_add(cost);
    }

    /// Pushes a 16-bit value: SP drops by two, the value is stored
    /// little-endian at the new SP.
    fn push16(&mut self, v: u16)
        requires
            old(self).inv(),
        ensures
            final(self).inv(),
            final(self)@ == spec_push16(old(self)@, v),
    {
        let sp2 = self.registers.get_u16(Register16::SP).wrapping_sub(2);
        self.registers.set_u16(Register16::SP, sp2);
        self.write_ram(sp2, (v & 0x00ff) as u8);
        self.write_ram(sp2.wrapping_add(1), (v >> 8) as u8);
    }

    /// The little-endian 16-bit value at the top of the stack.
    fn stack_top16(&self) -> (v: u16)
        requires
            self.inv(),
        ensures
            v == spec_stack_top16(self@),
    {
        let sp = self.registers.get_u16(Register16::SP);
        let lo = self.read_ram(sp);
        let hi = self.read_ram(sp.wrapping_add(1));
        (lo as u16) | ((hi as u16) << 8)
    }

    /// Writes back a 0xCB rotate/shift/swap result with its flag rule.
    fn cb_writeback(&mut self, r: &OpR8, res: u8, c: bool)
        requires
            old(self).inv(),
        ensures
            final(self).inv(),
            final(self)@ == spec_cb_writeback(old(self)@, *r, res, c),
    {
        self.set_r8_value(r, res);
        self.registers.set_flag(Flag::Zero, res == 0);
        self.registers.set_flag(Flag::Subtraction, false);
        self.registers.set_flag(Flag::HalfCarry, false);
        self.registers.set_flag(Flag::Carry, c);
    }

    /// SP plus the sign-extended imm8 with its flag rule, stored into `dest`;
    /// shared by `add sp, imm8` and `ld hl, sp + imm8`.
    fn sp_offset(&mut self, n: u8, dest: Register16)
        requires
            old(self).inv(),
        ensures
            final(self).inv(),
            final(self)@ == (MachineModel {
                regs: spec_sp_offset_regs(old(self)@.regs, n, dest),
                ..old(self)@
            }),
    {
        let sp = self.registers.get_u16(Register16::SP);
        let off: u16 = if n < 0x80 {
            n as u16
        } else {
            n as u16 + 0xff00
        };
        self.registers.set_flag(Flag::Zero, false);
        self.registers.set_flag(Flag::Subtraction, false);
        self.registers.set_flag(
            Flag::HalfCarry,
            (sp & 0x000f) as u32 + (n & 0x0f) as u32 > 0x0f,
        );
        self.registers.set_flag(Flag::Carry, (sp & 0x00ff) as u32 + n as u32 > 0xff);
        self.registers.set_u16(dest, sp.wrapping_add(off));
    }

    /// One step of the fetch-decode-execute loop. A suspended machine (after
    /// `halt`/`stop`, until a collaborator delivers an interrupt or `reti`
    /// runs) does nothing. Otherwise: read the opcode at PC, decode it, apply
    /// its register/memory/flag effects, and advance PC and the cycle counter
    /// (or redirect PC for the control-transfer instructions) — unless the
    /// byte is an undefined opcode, in which case the error propagates and no
    /// state is mutated.
    #[verifier::rlimit(100)]
    #[verifier::spinoff_prover]
    fn exec_load(&mut self, inst: Instruction)
        requires
            old(self).inv(),
            is_load_inst(inst),
        ensures
            final(self).inv(),
            final(self)@ == spec_exec(old(self)@, inst),
    {
        match inst {
            Instruction::LdR16Imm16(r) => {
                let imm = self.read_imm16();
                let reg = reg16_register(&r);
                self.registers.set_u16(reg, imm);
                self.advance(3, 12);
            },
            Instruction::LdR16MemA(mm) => {
                let addr = r16_mem_addr(&self.registers, &mm);
                let a = self.registers.get_u8(Register8::A);
                self.write_ram(addr, a);
                match mm {
                    OpR16Mem::HLPlus => self.registers.inc_u16(Register16::HL),
                    OpR16Mem::HLMinus => self.registers.dec_u16(Register16::HL),
                    _ => {},
                }
                self.advance(1, 8);
            },
            Instruction::LdAR16Mem(mm) => {
                let addr = r16_mem_addr(&self.registers, &mm);
                let v = self.read_ram(addr);
                self.registers.set_u8(Register8::A, v);
                match mm {
                    OpR16Mem::HLPlus => self.registers.inc_u16(Register16::HL),
                    OpR16Mem::HLMinus => self.registers.dec_u16(Register16::HL),
                    _ => {},
                }
                self.advance(1, 8);
            },
            Instruction::LdImm16SP => {
                let addr = self.read_imm16();
                let sp = self.registers.get_u16(Register16::SP);
                self.write_ram(addr, (sp & 0x00ff) as u8);
                self.write_ram(addr.wrapping_add(1), (sp >> 8) as u8);
                self.advance(3, 20);
            },
            Instruction::LdAImm16(imm) => {
                let v = self.read_ram(imm);
                self.registers.set_u8(Register8::A, v);
                self.advance(3, 16);
            },
            Instruction::LdImm16A(imm) => {
                let a = self.registers.get_u8(Register8::A);
                self.write_ram(imm, a);
                self.advance(3, 16);
            },
            Instruction::LdhAImm8(n) => {
                let v = self.read_ram(0xff00 | (n as u16));
                self.registers.set_u8(Register8::A, v);
                self.advance(2, 12);
            },
            Instruction::LdhImm8A(n) => {
                let a = self.registers.get_u8(Register8::A);
                self.write_ram(0xff00 | (n as u16), a);
                self.advance(2, 12);
            },
            Instruction::LdhAC => {
                let c = self.registers.get_u8(Register8::C);
                let v = self.read_ram(0xff00 | (c as u16));
                self.registers.set_u8(Register8::A, v);
                self.advance(1, 8);
            },
            Instruction::LdhCA => {
                let c = self.registers.get_u8(Register8::C);
                let a = self.registers.get_u8(Register8::A);
                self.write_ram(0xff00 | (c as u16), a);
                self.advance(1, 8);
            },
            Instruction::LdR8R8(d, s) => {
                let v = self.r8_value(&s);
                self.set_r8_value(&d, v);
                let cost: u64 = match (d, s) {
                    (OpR8::HL, _) => 8,
                    (_, OpR8::HL) => 8,
                    _ => 4,
                };
                self.advance(1, cost);
            },
            Instruction::LdR8Imm8(d) => {
                let v = self.read_imm8();
                self.set_r8_value(&d, v);
                let cost: u64 = match d {
                    OpR8::HL => 12,
                    _ => 8,
                };
                self.advance(2, cost);
            },
            Instruction::LdSpHl => {
                let hl = self.registers.get_u16(Register16::HL);
                self.registers.set_u16(Register16::SP, hl);
                self.advance(1, 8);
            },
            _ => {
                proof {
                    assert(false);
                }
            },
        }
    }

    #[verifier::rlimit(100)]
    #[verifier::spinoff_prover]
    fn exec_arith(&mut self, inst: Instruction)
        requires
            old(self).inv(),
            is_arith_inst(inst),
        ensures
            final(self).inv(),
            final(self)@ == spec_exec(old(self)@, inst),
    {
        match inst {
            Instruction::IncR16(r) => {
                let reg = reg16_register(&r);
                self.registers.inc_u16(reg);
                self.advance(1, 8);
            },
            Instruction::DecR16(r) => {
                let reg = reg16_register(&r);
                self.registers.dec_u16(reg);
                self.advance(1, 8);
            },
            Instruction::AddHlR16(r) => {
                let reg = reg16_register(&r);
                let v = self.registers.get_u16(reg);
                add_hl(&mut self.registers, v);
                self.advance(1, 8);
            },
            Instruction::IncR8(r) => {
                let v = self.r8_value(&r);
                let res = ((v as u16 + 1) % 0x100) as u8;
                self.set_r8_value(&r, res);
                self.registers.set_flag(Flag::Zero, res == 0);
                self.registers.set_flag(Flag::Subtraction, false);
                self.registers.set_flag(Flag::HalfCarry, (v & 0x0f) as u16 + 1 > 0x0f);
                let cost: u64 = match r {
                    OpR8::HL => 12,
                    _ => 4,
                };
                self.advance(1, cost);
            },
            Instruction::DecR8(r) => {
                let v = self.r8_value(&r);
                let res = ((v as u16 + 0xff) % 0x100) as u8;
                self.set_r8_value(&r, res);
                self.registers.set_flag(Flag::Zero, res == 0);
                self.registers.set_flag(Flag::Subtraction, true);
                self.registers.set_flag(Flag::HalfCarry, v & 0x0f == 0);
                let cost: u64 = match r {
                    OpR8::HL => 12,
                    _ => 4,
                };
                self.advance(1, cost);
            },
            Instruction::AddSpImm8 => {
                let n = self.read_imm8();
                self.sp_offset(n, Register16::SP);
                self.advance(2, 16);
            },
            Instruction::LdHlSpImm8 => {
                let n = self.read_imm8();
                self.sp_offset(n, Register16::HL);
                self.advance(2, 12);
            },
            Instruction::Rlca
            | Instruction::Rrca
            | Instruction::Rla
            | Instruction::Rra
            | Instruction::Daa
            | Instruction::Cpl
            | Instruction::Scf
            | Instruction::Ccf => {
                acc_apply(&mut self.registers, &inst);
                self.advance(1, 4);
            },
            Instruction::AddAR8(op)
            | Instruction::AdcAR8(op)
            | Instruction::SubAR8(op)
            | Instruction::SbcAR8(op)
            | Instruction::AndAR8(op)
            | Instruction::XorAR8(op)
            | Instruction::OrAR8(op)
            | Instruction::CpAR8(op) => {
                let v = self.r8_value(&op);
                alu_apply(&mut self.registers, &inst, v);
                let cost: u64 = match op {
                    OpR8::HL => 8,
                    _ => 4,
                };
                self.advance(1, cost);
            },
            Instruction::AddAImm8
            | Instruction::AdcAImm8
            | Instruction::SubAImm8
            | Instruction::SbcAImm8
            | Instruction::AndAImm8
            | Instruction::XorAImm8
            | Instruction::OrAImm8
            | Instruction::CpAImm8 => {
                let v = self.read_imm8();
                alu_apply(&mut self.registers, &inst, v);
                self.advance(2, 8);
            },
            _ => {
                proof {
                    assert(false);
                }
            },
        }
    }

    #[verifier::rlimit(100)]
    #[verifier::spinoff_prover]
    fn exec_control(&mut self, inst: Instruction)
        requires
            old(self).inv(),
            is_control_inst(inst),
        ensures
            final(self).inv(),
            final(self)@ == spec_exec(old(self)@, inst),
    {
        match inst {
            Instruction::JrImm8 => {
                let dest = self.jr_dest();
                self.jump(dest, 12);
            },
            Instruction::JrCondImm8(c) => {
                if cond_holds(&self.registers, &c) {
                    let dest = self.jr_dest();
                    self.jump(dest, 12);
                } else {
                    self.advance(2, 8);
                }
            },
            Instruction::JpImm16(imm) => {
                self.jump(imm, 16);
            },
            Instruction::JpCondImm16(c, imm) => {
                if cond_holds(&self.registers, &c) {
                    self.jump(imm, 16);
                } else {
                    self.advance(3, 12);
                }
            },
            Instruction::JpHl => {
                let hl = self.registers.get_u16(Register16::HL);
                self.jump(hl, 4);
            },
            Instruction::CallImm16(imm) => {
                let pc = self.registers.get_u16(Register16::PC);
                self.push16(pc.wrapping_add(3));
                self.jump(imm, 24);
            },
            Instruction::CallCondImm16(c, imm) => {
                if cond_holds(&self.registers, &c) {
                    let pc = self.registers.get_u16(Register16::PC);
                    self.push16(pc.wrapping_add(3));
                    self.jump(imm, 24);
                } else {
                    self.advance(3, 12);
                }
            },
            Instruction::RstTgt3(t) => {
                let pc = self.registers.get_u16(Register16::PC);
                self.push16(pc.wrapping_add(1));
                self.jump(((t & 7) as u16) * 8, 16);
            },
            Instruction::Ret => {
                let dest = self.stack_top16();
                let sp = self.registers.get_u16(Register16::SP);
                self.registers.set_u16(Register16::SP, sp.wrapping_add(2));
                self.jump(dest, 16);
            },
            Instruction::RetCond(c) => {
                if cond_holds(&self.registers, &c) {
                    let dest = self.stack_top16();
                    let sp = self.registers.get_u16(Register16::SP);
                    self.registers.set_u16(Register16::SP, sp.wrapping_add(2));
                    self.jump(dest, 20);
                } else {
                    self.advance(1, 8);
                }
            },
            Instruction::Reti => {
                let dest = self.stack_top16();
                let sp = self.registers.get_u16(Register16::SP);
                self.registers.set_u16(Register16::SP, sp.wrapping_add(2));
                self.jump(dest, 16);
                self.suspended = false;
                self.ime = true;
            },
            Instruction::Push(p) => {
                let v = match p {
                    OpR16Stk::BC => self.registers.get_u16(Register16::BC),
                    OpR16Stk::DE => self.registers.get_u16(Register16::DE),
                    OpR16Stk::HL => self.registers.get_u16(Register16::HL),
                    OpR16Stk::AF => self.registers.get_u16(Register16::AF),
                };
                self.push16(v);
                self.advance(1, 16);
            },
            Instruction::Pop(p) => {
                let v = self.stack_top16();
                let sp = self.registers.get_u16(Register16::SP);
                self.registers.set_u16(Register16::SP, sp.wrapping_add(2));
                let reg = match p {
                    OpR16Stk::BC => Register16::BC,
                    OpR16Stk::DE => Register16::DE,
                    OpR16Stk::HL => Register16::HL,
                    OpR16Stk::AF => Register16::AF,
                };
                self.registers.set_u16(reg, v);
                self.advance(1, 12);
            },
            _ => {
                proof {
                    assert(false);
                }
            },
        }
    }

    #[verifier::rlimit(100)]
    #[verifier::spinoff_prover]
    fn exec_cb(&mut self, inst: Instruction)
        requires
            old(self).inv(),
            is_cb_inst(inst),
        ensures
            final(self).inv(),
            final(self)@ == spec_exec(old(self)@, inst),
    {
        match inst {
            Instruction::RlcR8(r) => {
                let v = self.r8_value(&r);
                self.cb_writeback(&r, (v << 1) | (v >> 7), v & 0x80 != 0);
                self.advance(2, cb_cost(&r));
            },
            Instruction::RrcR8(r) => {
                let v = self.r8_value(&r);
                self.cb_writeback(&r, (v >> 1) | (v << 7), v & 0x01 != 0);
                self.advance(2, cb_cost(&r));
            },
            Instruction::RlR8(r) => {
                let v = self.r8_value(&r);
                let cin: u8 = if self.registers.get_flag(Flag::Carry) {
                    1
                } else {
                    0
                };
                self.cb_writeback(&r, (v << 1) | cin, v & 0x80 != 0);
                self.advance(2, cb_cost(&r));
            },
            Instruction::RrR8(r) => {
                let v = self.r8_value(&r);
                let cin: u8 = if self.registers.get_flag(Flag::Carry) {
                    1
                } else {
                    0
                };
                self.cb_writeback(&r, (v >> 1) | (cin << 7), v & 0x01 != 0);
                self.advance(2, cb_cost(&r));
            },
            Instruction::SlaR8(r) => {
                let v = self.r8_value(&r);
                self.cb_writeback(&r, v << 1, v & 0x80 != 0);
                self.advance(2, cb_cost(&r));
            },
            Instruction::SraR8(r) => {
                let v = self.r8_value(&r);
                self.cb_writeback(&r, (v >> 1) | (v & 0x80), v & 0x01 != 0);
                self.advance(2, cb_cost(&r));
            },
            Instruction::SwapR8(r) => {
                let v = self.r8_value(&r);
                self.cb_writeback(&r, (v >> 4) | (v << 4), false);
                self.advance(2, cb_cost(&r));
            },
            Instruction::SrlR8(r) => {
                let v = self.r8_value(&r);
                self.cb_writeback(&r, v >> 1, v & 0x01 != 0);
                self.advance(2, cb_cost(&r));
            },
            Instruction::BitB3R8(b3, r) => {
                proof {
                    assert(b3 & 7 < 8) by (bit_vector);
                }
                let v = self.r8_value(&r);
                self.registers.set_flag(Flag::Zero, (v >> (b3 & 7)) & 1 == 0);
                self.registers.set_flag(Flag::Subtraction, false);
                self.registers.set_flag(Flag::HalfCarry, true);
                let cost: u64 = match r {
                    OpR8::HL => 12,
                    _ => 8,
                };
                self.advance(2, cost);
            },
            Instruction::ResB3R8(b3, r) => {
                proof {
                    assert(b3 & 7 < 8) by (bit_vector);
                }
                let v = self.r8_value(&r);
                self.set_r8_value(&r, v & !(1u8 << (b3 & 7)));
                self.advance(2, cb_cost(&r));
            },
            Instruction::SetB3R8(b3, r) => {
                proof {
                    assert(b3 & 7 < 8) by (bit_vector);
                }
                let v = self.r8_value(&r);
                self.set_r8_value(&r, v | (1u8 << (b3 & 7)));
                self.advance(2, cb_cost(&r));
            },

            _ => {
                proof {
                    assert(false);
                }
            },
        }
    }

    /// One step of the fetch-decode-execute loop. A suspended machine (after
    /// `halt`/`stop`, until a collaborator delivers an interrupt or `reti`
    /// runs) does nothing. Otherwise: read the opcode at PC, decode it, apply
    /// its register/memory/flag effects, and advance PC and the cycle counter
    /// (or redirect PC for the control-transfer instructions) — unless the
    /// byte is an undefined opcode, in which case the error propagates and no
    /// state is mutated.
    pub fn cycle(&mut self) -> (r: Result<(), DecodeError>)
        requires
            old(self).inv(),
        ensures
            final(self).inv(),
            old(self)@.suspended ==> r is Ok && *final(self) == *old(self),
            !old(self)@.suspended ==> ({
                let decoded = spec_decode_at(old(self)@);
                (decoded is Err ==> r == Err::<(), DecodeError>(decoded->Err_0) && *final(self)
                    == *old(self)) && (decoded is Ok ==> r is Ok && final(self)@ == spec_exec(
                    old(self)@,
                    decoded->Ok_0,
                ))
            }),
    {
        if self.suspended {
            return Ok(());
        }
        let inst = match self.decode_instruction() {
            Ok(i) => i,
            Err(e) => {
                return Err(e);
            },
        };
        match inst {

            Instruction::Nop => {
                self.advance(1, 4);
            },
            Instruction::Stop => {
                self.suspended = true;
                self.advance(1, 4);
            },
            Instruction::Halt => {
                self.suspended = true;
                self.advance(1, 4);
            },
            Instruction::Di => {
                self.ime = false;
                self.advance(1, 4);
            },
            Instruction::Ei => {
                self.ime = true;
                self.advance(1, 4);
            },
            Instruction::LdR16Imm16(_)
            | Instruction::LdR16MemA(_)
            | Instruction::LdAR16Mem(_)
            | Instruction::LdImm16SP
            | Instruction::LdAImm16(_)
            | Instruction::LdImm16A(_)
            | Instruction::LdhAImm8(_)
            | Instruction::LdhImm8A(_)
            | Instruction::LdhAC
            | Instruction::LdhCA
            | Instruction::LdR8R8(_, _)
            | Instruction::LdR8Imm8(_)
            | Instruction::LdSpHl => self.exec_load(inst),
            Instruction::IncR16(_)
            | Instruction::DecR16(_)
            | Instruction::AddHlR16(_)
            | Instruction::IncR8(_)
            | Instruction::DecR8(_)
            | Instruction::AddSpImm8
            | Instruction::LdHlSpImm8
            | Instruction::Rlca
            | Instruction::Rrca
            | Instruction::Rla
            | Instruction::Rra
            | Instruction::Daa
            | Instruction::Cpl
            | Instruction::Scf
            | Instruction::Ccf
            | Instruction::AddAR8(_)
            | Instruction::AdcAR8(_)
            | Instruction::SubAR8(_)
            | Instruction::SbcAR8(_)
            | Instruction::AndAR8(_)
            | Instruction::XorAR8(_)
            | Instruction::OrAR8(_)
            | Instruction::CpAR8(_)
            | Instruction::AddAImm8
            | Instruction::AdcAImm8
            | Instruction::SubAImm8
            | Instruction::SbcAImm8
            | Instruction::AndAImm8
            | Instruction::XorAImm8
            | Instruction::OrAImm8
            | Instruction::CpAImm8 => self.exec_arith(inst),
            Instruction::JrImm8
            | Instruction::JrCondImm8(_)
            | Instruction::JpImm16(_)
            | Instruction::JpCondImm16(_, _)
            | Instruction::JpHl
            | Instruction::CallImm16(_)
            | Instruction::CallCondImm16(_, _)
            | Instruction::RstTgt3(_)
            | Instruction::Ret
            | Instruction::RetCond(_)
            | Instruction::Reti
            | Instruction::Push(_)
            | Instruction::Pop(_) => self.exec_control(inst),
            Instruction::RlcR8(_)
            | Instruction::RrcR8(_)
            | Instruction::RlR8(_)
            | Instruction::RrR8(_)
            | Instruction::SlaR8(_)
            | Instruction::SraR8(_)
            | Instruction::SwapR8(_)
            | Instruction::SrlR8(_)
            | Instruction::BitB3R8(_, _)
            | Instruction::ResB3R8(_, _)
            | Instruction::SetB3R8(_, _) => self.exec_cb(inst),
        }
        Ok(())
    }

    /// The destination of a relative jump: PC past the two-byte instruction
    /// plus the sign-extended offset.
    fn jr_dest(&self) -> (dest: u16)
        requires
            self.inv(),
        ensures
            dest == spec_jr_dest(self@),
    {
        let n = self.read_imm8();
        let off: u16 = if n < 0x80 {
            n as u16
        } else {
            n as u16 + 0xff00
        };
        let pc = self.registers.get_u16(Register16::PC);
        pc.wrapping_add(2).wrapping_add(off)
    }
}

/// The cycle cost of a 0xCB rotate/shift/swap/res/set operand.
fn cb_cost(r: &OpR8) -> (c: u64)
    ensures
        c == spec_cb_cost(*r),
{
    match r {
        OpR8::HL => 16,
        _ => 8,
    }
}

/// The decoded instruction at PC in the machine model, reading the operand
/// bytes one and two past it.
pub open spec fn spec_decode_at(m: MachineModel) -> Result<Instruction, DecodeError> {
    spec_decode(
        m.ram[m.regs.pc as int],
        m.ram[u16_specs::wrapping_add(m.regs.pc, 1) as int],
        m.ram[u16_specs::wrapping_add(m.regs.pc, 2) as int],
    )
}

/// One ALU step on a register operand: fetch the value, apply the operation
/// to A and the flags, advance one byte; an HL-indirect operand costs 8
/// cycles, else 4.
pub open spec fn spec_alu_step(m: MachineModel, inst: Instruction, op: OpR8) -> MachineModel {
    let v = spec_r8_value(m, op);
    let cost: u64 = if op == OpR8::HL {
        8
    } else {
        4
    };
    spec_advance(MachineModel { regs: spec_alu_regs(m.regs, inst, v), ..m }, 1, cost)
}

/// One ALU step on the imm8 operand: two bytes, 8 cycles.
pub open spec fn spec_alu_imm_step(m: MachineModel, inst: Instruction) -> MachineModel {
    spec_advance(MachineModel { regs: spec_alu_regs(m.regs, inst, spec_imm8(m)), ..m }, 2, 8)
}

/// The destination of a relative jump: PC past the two-byte instruction plus
/// the sign-extended offset.
pub open spec fn spec_jr_dest(m: MachineModel) -> u16 {
    u16_specs::wrapping_add(
        u16_specs::wrapping_add(m.regs.pc, 2),
        sign_ext16(spec_imm8(m)),
    )
}

/// SP plus the sign-extended imm8, with the flag rule shared by
/// `add sp, imm8` and `ld hl, sp + imm8`: Zero and Subtraction cleared,
/// HalfCarry from bit 3, Carry from bit 7 of the low-byte addition.
pub open spec fn spec_sp_offset_regs(rs: RegisterState, n: u8, dest: Register16) -> RegisterState {
    let sp = rs.sp;
    rs.spec_set_flag(Flag::Zero, false).spec_set_flag(Flag::Subtraction, false).spec_set_flag(
        Flag::HalfCarry,
        (sp & 0x000f) + (n & 0x0f) > 0x0f,
    ).spec_set_flag(Flag::Carry, (sp & 0x00ff) + n > 0xff).spec_set_u16(
        dest,
        u16_specs::wrapping_add(sp, sign_ext16(n)),
    )
}

/// The machine after executing one decoded instruction: the mnemonic's
/// register/memory/flag effect, then the PC advance (or redirection) and the
/// cycle cost, with the two costs of each conditional branch.
pub open spec fn spec_exec(m: MachineModel, inst: Instruction) -> MachineModel {
    match inst {
        Instruction::Nop => spec_advance(m, 1, 4),
        Instruction::Stop => MachineModel { suspended: true, ..spec_advance(m, 1, 4) },
        Instruction::Halt => MachineModel { suspended: true, ..spec_advance(m, 1, 4) },
        Instruction::Di => MachineModel { ime: false, ..spec_advance(m, 1, 4) },
        Instruction::Ei => MachineModel { ime: true, ..spec_advance(m, 1, 4) },
        Instruction::LdR16Imm16(r) => spec_advance(
            MachineModel { regs: m.regs.spec_set_u16(reg16_of(r), spec_imm16(m)), ..m },
            3,
            12,
        ),
        Instruction::LdR16MemA(mm) => spec_advance(
            MachineModel {
                regs: spec_mem_adjust(m.regs, mm),
                ram: m.ram.update(
                    spec_mem_addr(m.regs, mm) as int,
                    m.regs.spec_get_u8(Register8::A),
                ),
                ..m
            },
            1,
            8,
        ),
        Instruction::LdAR16Mem(mm) => spec_advance(
            MachineModel {
                regs: spec_mem_adjust(
                    m.regs.spec_set_u8(Register8::A, m.ram[spec_mem_addr(m.regs, mm) as int]),
                    mm,
                ),
                ..m
            },
            1,
            8,
        ),
        Instruction::LdImm16SP => spec_advance(
            MachineModel {
                ram: m.ram.update(spec_imm16(m) as int, (m.regs.sp & 0x00ff) as u8).update(
                    u16_specs::wrapping_add(spec_imm16(m), 1) as int,
                    (m.regs.sp >> 8) as u8,
                ),
                ..m
            },
            3,
            20,
        ),
        Instruction::LdAImm16(imm) => spec_advance(
            MachineModel { regs: m.regs.spec_set_u8(Register8::A, m.ram[imm as int]), ..m },
            3,
            16,
        ),
        Instruction::LdImm16A(imm) => spec_advance(
            MachineModel {
                ram: m.ram.update(imm as int, m.regs.spec_get_u8(Register8::A)),
                ..m
            },
            3,
            16,
        ),
        Instruction::LdhAImm8(n) => spec_advance(
            MachineModel {
                regs: m.regs.spec_set_u8(Register8::A, m.ram[(0xff00u16 | (n as u16)) as int]),
                ..m
            },
            2,
            12,
        ),
        Instruction::LdhImm8A(n) => spec_advance(
            MachineModel {
                ram: m.ram.update(
                    (0xff00u16 | (n as u16)) as int,
                    m.regs.spec_get_u8(Register8::A),
                ),
                ..m
            },
            2,
            12,
        ),
        Instruction::LdhAC => spec_advance(
            MachineModel {
                regs: m.regs.spec_set_u8(
                    Register8::A,
                    m.ram[(0xff00u16 | (m.regs.spec_get_u8(Register8::C) as u16)) as int],
                ),
                ..m
            },
            1,
            8,
        ),
        Instruction::LdhCA => spec_advance(
            MachineModel {
                ram: m.ram.update(
                    (0xff00u16 | (m.regs.spec_get_u8(Register8::C) as u16)) as int,
                    m.regs.spec_get_u8(Register8::A),
                ),
                ..m
            },
            1,
            8,
        ),
        Instruction::LdR8R8(d, s) => spec_advance(
            spec_set_r8_value(m, d, spec_r8_value(m, s)),
            1,
            if d == OpR8::HL || s == OpR8::HL {
                8
            } else {
                4
            },
        ),
        Instruction::LdR8Imm8(d) => spec_advance(
            spec_set_r8_value(m, d, spec_imm8(m)),
            2,
            if d == OpR8::HL {
                12
            } else {
                8
            },
        ),
        Instruction::LdSpHl => spec_advance(
            MachineModel { regs: m.regs.spec_set_u16(Register16::SP, m.regs.hl), ..m },
            1,
            8,
        ),
        Instruction::IncR16(r) => spec_advance(
            MachineModel {
                regs: m.regs.spec_set_u16(reg16_of(r), wrap_inc16(m.regs.spec_get_u16(reg16_of(r)))),
                ..m
            },
            1,
            8,
        ),
        Instruction::DecR16(r) => spec_advance(
            MachineModel {
                regs: m.regs.spec_set_u16(reg16_of(r), wrap_dec16(m.regs.spec_get_u16(reg16_of(r)))),
                ..m
            },
            1,
            8,
        ),
        Instruction::AddHlR16(r) => spec_advance(
            MachineModel { regs: spec_add_hl_regs(m.regs, m.regs.spec_get_u16(reg16_of(r))), ..m },
            1,
            8,
        ),
        Instruction::IncR8(r) => {
            let v = spec_r8_value(m, r);
            let res = ((v + 1) % 0x100) as u8;
            let m1 = spec_set_r8_value(m, r, res);
            spec_advance(
                MachineModel {
                    regs: m1.regs.spec_set_flag(Flag::Zero, res == 0).spec_set_flag(
                        Flag::Subtraction,
                        false,
                    ).spec_set_flag(Flag::HalfCarry, (v & 0x0f) + 1 > 0x0f),
                    ..m1
                },
                1,
                if r == OpR8::HL {
                    12
                } else {
                    4
                },
            )
        },
        Instruction::DecR8(r) => {
            let v = spec_r8_value(m, r);
            let res = ((v + 0xff) % 0x100) as u8;
            let m1 = spec_set_r8_value(m, r, res);
            spec_advance(
                MachineModel {
                    regs: m1.regs.spec_set_flag(Flag::Zero, res == 0).spec_set_flag(
                        Flag::Subtraction,
                        true,
                    ).spec_set_flag(Flag::HalfCarry, v & 0x0f == 0),
                    ..m1
                },
                1,
                if r == OpR8::HL {
                    12
                } else {
                    4
                },
            )
        },
        Instruction::AddSpImm8 => spec_advance(
            MachineModel {
                regs: spec_sp_offset_regs(m.regs, spec_imm8(m), Register16::SP),
                ..m
            },
            2,
            16,
        ),
        Instruction::LdHlSpImm8 => spec_advance(
            MachineModel {
                regs: spec_sp_offset_regs(m.regs, spec_imm8(m), Register16::HL),
                ..m
            },
            2,
            12,
        ),
        Instruction::Rlca => spec_advance(
            MachineModel { regs: spec_acc_regs(m.regs, inst), ..m },
            1,
            4,
        ),
        Instruction::Rrca => spec_advance(
            MachineModel { regs: spec_acc_regs(m.regs, inst), ..m },
            1,
            4,
        ),
        Instruction::Rla => spec_advance(
            MachineModel { regs: spec_acc_regs(m.regs, inst), ..m },
            1,
            4,
        ),
        Instruction::Rra => spec_advance(
            MachineModel { regs: spec_acc_regs(m.regs, inst), ..m },
            1,
            4,
        ),
        Instruction::Daa => spec_advance(
            MachineModel { regs: spec_acc_regs(m.regs, inst), ..m },
            1,
            4,
        ),
        Instruction::Cpl => spec_advance(
            MachineModel { regs: spec_acc_regs(m.regs, inst), ..m },
            1,
            4,
        ),
        Instruction::Scf => spec_advance(
            MachineModel { regs: spec_acc_regs(m.regs, inst), ..m },
            1,
            4,
        ),
        Instruction::Ccf => spec_advance(
            MachineModel { regs: spec_acc_regs(m.regs, inst), ..m },
            1,
            4,
        ),
        Instruction::JrImm8 => spec_jump(m, spec_jr_dest(m), 12),
        Instruction::JrCondImm8(c) => if spec_cond_holds(m.regs, c) {
            spec_jump(m, spec_jr_dest(m), 12)
        } else {
            spec_advance(m, 2, 8)
        },
        Instruction::JpImm16(imm) => spec_jump(m, imm, 16),
        Instruction::JpCondImm16(c, imm) => if spec_cond_holds(m.regs, c) {
            spec_jump(m, imm, 16)
        } else {
            spec_advance(m, 3, 12)
        },
        Instruction::JpHl => spec_jump(m, m.regs.hl, 4),
        Instruction::CallImm16(imm) => spec_jump(
            spec_push16(m, u16_specs::wrapping_add(m.regs.pc, 3)),
            imm,
            24,
        ),
        Instruction::CallCondImm16(c, imm) => if spec_cond_holds(m.regs, c) {
            spec_jump(spec_push16(m, u16_specs::wrapping_add(m.regs.pc, 3)), imm, 24)
        } else {
            spec_advance(m, 3, 12)
        },
        Instruction::RstTgt3(t) => spec_jump(
            spec_push16(m, u16_specs::wrapping_add(m.regs.pc, 1)),
            (((t & 7) as u16) * 8) as u16,
            16,
        ),
        Instruction::Ret => spec_jump(
            MachineModel {
                regs: m.regs.spec_set_u16(
                    Register16::SP,
                    u16_specs::wrapping_add(m.regs.sp, 2),
                ),
                ..m
            },
            spec_stack_top16(m),
            16,
        ),
        Instruction::RetCond(c) => if spec_cond_holds(m.regs, c) {
            spec_jump(
                MachineModel {
                    regs: m.regs.spec_set_u16(
                        Register16::SP,
                        u16_specs::wrapping_add(m.regs.sp, 2),
                    ),
                    ..m
                },
                spec_stack_top16(m),
                20,
            )
        } else {
            spec_advance(m, 1, 8)
        },
        Instruction::Reti => MachineModel {
            suspended: false,
            ime: true,
            ..spec_jump(
                MachineModel {
                    regs: m.regs.spec_set_u16(
                        Register16::SP,
                        u16_specs::wrapping_add(m.regs.sp, 2),
                    ),
                    ..m
                },
                spec_stack_top16(m),
                16,
            )
        },
        Instruction::Push(p) => spec_advance(
            spec_push16(m, spec_stk_value(m.regs, p)),
            1,
            16,
        ),
        Instruction::Pop(p) => spec_advance(
            MachineModel {
                regs: m.regs.spec_set_u16(
                    Register16::SP,
                    u16_specs::wrapping_add(m.regs.sp, 2),
                ).spec_set_u16(reg16_of_stk(p), spec_stack_top16(m)),
                ..m
            },
            1,
            12,
        ),
        Instruction::AddAR8(op) => spec_alu_step(m, inst, op),
        Instruction::AdcAR8(op) => spec_alu_step(m, inst, op),
        Instruction::SubAR8(op) => spec_alu_step(m, inst, op),
        Instruction::SbcAR8(op) => spec_alu_step(m, inst, op),
        Instruction::AndAR8(op) => spec_alu_step(m, inst, op),
        Instruction::XorAR8(op) => spec_alu_step(m, inst, op),
        Instruction::OrAR8(op) => spec_alu_step(m, inst, op),
        Instruction::CpAR8(op) => spec_alu_step(m, inst, op),
        Instruction::AddAImm8 => spec_alu_imm_step(m, inst),
        Instruction::AdcAImm8 => spec_alu_imm_step(m, inst),
        Instruction::SubAImm8 => spec_alu_imm_step(m, inst),
        Instruction::SbcAImm8 => spec_alu_imm_step(m, inst),
        Instruction::AndAImm8 => spec_alu_imm_step(m, inst),
        Instruction::XorAImm8 => spec_alu_imm_step(m, inst),
        Instruction::OrAImm8 => spec_alu_imm_step(m, inst),
        Instruction::CpAImm8 => spec_alu_imm_step(m, inst),
        Instruction::RlcR8(r) => {
            let v = spec_r8_value(m, r);
            spec_advance(
                spec_cb_writeback(m, r, (v << 1) | (v >> 7), v & 0x80 != 0),
                2,
                spec_cb_cost(r),
            )
        },
        Instruction::RrcR8(r) => {
            let v = spec_r8_value(m, r);
            spec_advance(
                spec_cb_writeback(m, r, (v >> 1) | (v << 7), v & 0x01 != 0),
                2,
                spec_cb_cost(r),
            )
        },
        Instruction::RlR8(r) => {
            let v = spec_r8_value(m, r);
            spec_advance(
                spec_cb_writeback(m, r, (v << 1) | spec_carry_in(m.regs), v & 0x80 != 0),
                2,
                spec_cb_cost(r),
            )
        },
        Instruction::RrR8(r) => {
            let v = spec_r8_value(m, r);
            spec_advance(
                spec_cb_writeback(m, r, (v >> 1) | (spec_carry_in(m.regs) << 7), v & 0x01 != 0),
                2,
                spec_cb_cost(r),
            )
        },
        Instruction::SlaR8(r) => {
            let v = spec_r8_value(m, r);
            spec_advance(spec_cb_writeback(m, r, v << 1, v & 0x80 != 0), 2, spec_cb_cost(r))
        },
        Instruction::SraR8(r) => {
            let v = spec_r8_value(m, r);
            spec_advance(
                spec_cb_writeback(m, r, (v >> 1) | (v & 0x80), v & 0x01 != 0),
                2,
                spec_cb_cost(r),
            )
        },
        Instruction::SwapR8(r) => {
            let v = spec_r8_value(m, r);
            spec_advance(spec_cb_writeback(m, r, (v >> 4) | (v << 4), false), 2, spec_cb_cost(r))
        },
        Instruction::SrlR8(r) => {
            let v = spec_r8_value(m, r);
            spec_advance(spec_cb_writeback(m, r, v >> 1, v & 0x01 != 0), 2, spec_cb_cost(r))
        },
        Instruction::BitB3R8(b3, r) => {
            let v = spec_r8_value(m, r);
            spec_advance(
                MachineModel {
                    regs: m.regs.spec_set_flag(
                        Flag::Zero,
                        (v >> (b3 & 7)) & 1 == 0,
                    ).spec_set_flag(Flag::Subtraction, false).spec_set_flag(Flag::HalfCarry, true),
                    ..m
                },
                2,
                if r == OpR8::HL {
                    12
                } else {
                    8
                },
            )
        },
        Instruction::ResB3R8(b3, r) => {
            let v = spec_r8_value(m, r);
            spec_advance(
                spec_set_r8_value(m, r, v & !((1u8 << (b3 & 7)) as u8)),
                2,
                spec_cb_cost(r),
            )
        },
        Instruction::SetB3R8(b3, r) => {
            let v = spec_r8_value(m, r);
            spec_advance(
                spec_set_r8_value(m, r, v | ((1u8 << (b3 & 7)) as u8)),
                2,
                spec_cb_cost(r),
            )
        },
    }
}

/// The load and store instructions.
pub open spec fn is_load_inst(inst: Instruction) -> bool {
    match inst {
        Instruction::LdR16Imm16(_) => true,
        Instruction::LdR16MemA(_) => true,
        Instruction::LdAR16Mem(_) => true,
        Instruction::LdImm16SP => true,
        Instruction::LdAImm16(_) => true,
        Instruction::LdImm16A(_) => true,
        Instruction::LdhAImm8(_) => true,
        Instruction::LdhImm8A(_) => true,
        Instruction::LdhAC => true,
        Instruction::LdhCA => true,
        Instruction::LdR8R8(_, _) => true,
        Instruction::LdR8Imm8(_) => true,
        Instruction::LdSpHl => true,
        _ => false,
    }
}

/// The arithmetic, logic and accumulator instructions.
pub open spec fn is_arith_inst(inst: Instruction) -> bool {
    match inst {
        Instruction::IncR16(_) => true,
        Instruction::DecR16(_) => true,
        Instruction::AddHlR16(_) => true,
        Instruction::IncR8(_) => true,
        Instruction::DecR8(_) => true,
        Instruction::AddSpImm8 => true,
        Instruction::LdHlSpImm8 => true,
        Instruction::Rlca => true,
        Instruction::Rrca => true,
        Instruction::Rla => true,
        Instruction::Rra => true,
        Instruction::Daa => true,
        Instruction::Cpl => true,
        Instruction::Scf => true,
        Instruction::Ccf => true,
        Instruction::AddAR8(_) => true,
        Instruction::AdcAR8(_) => true,
        Instruction::SubAR8(_) => true,
        Instruction::SbcAR8(_) => true,
        Instruction::AndAR8(_) => true,
        Instruction::XorAR8(_) => true,
        Instruction::OrAR8(_) => true,
        Instruction::CpAR8(_) => true,
        Instruction::AddAImm8 => true,
        Instruction::AdcAImm8 => true,
        Instruction::SubAImm8 => true,
        Instruction::SbcAImm8 => true,
        Instruction::AndAImm8 => true,
        Instruction::XorAImm8 => true,
        Instruction::OrAImm8 => true,
        Instruction::CpAImm8 => true,
        _ => false,
    }
}

/// The control-transfer and stack instructions.
pub open spec fn is_control_inst(inst: Instruction) -> bool {
    match inst {
        Instruction::JrImm8 => true,
        Instruction::JrCondImm8(_) => true,
        Instruction::JpImm16(_) => true,
        Instruction::JpCondImm16(_, _) => true,
        Instruction::JpHl => true,
        Instruction::CallImm16(_) => true,
        Instruction::CallCondImm16(_, _) => true,
        Instruction::RstTgt3(_) => true,
        Instruction::Ret => true,
        Instruction::RetCond(_) => true,
        Instruction::Reti => true,
        Instruction::Push(_) => true,
        Instruction::Pop(_) => true,
        _ => false,
    }
}

// Constant folds of the masked patterns the decoder tests in blocks 0 to 2,
// which the default solver treats as uninterpreted.
proof fn lemma_pattern_constants()
    by (bit_vector)
    ensures
        0x00u8 & 0xc0u8 == 0x00u8,
        0x40u8 & 0xc0u8 == 0x40u8,
        0x80u8 & 0xc0u8 == 0x80u8,
        0x01u8 & 0x0fu8 == 0x01u8,
        0x02u8 & 0x0fu8 == 0x02u8,
        0x0au8 & 0x0fu8 == 0x0au8,
        0x03u8 & 0x0fu8 == 0x03u8,
        0x0bu8 & 0x0fu8 == 0x0bu8,
        0x09u8 & 0x0fu8 == 0x09u8,
        0x08u8 & 0x0fu8 == 0x08u8,
        0x08u8 & 0xc0u8 == 0x00u8,
        0x04u8 & 0x07u8 == 0x04u8,
        0x05u8 & 0x07u8 == 0x05u8,
        0x06u8 & 0x07u8 == 0x06u8,
        0x00u8 & 0x38u8 == 0x00u8,
        0x08u8 & 0x38u8 == 0x08u8,
        0x10u8 & 0x38u8 == 0x10u8,
        0x18u8 & 0x38u8 == 0x18u8,
        0x20u8 & 0x38u8 == 0x20u8,
        0x28u8 & 0x38u8 == 0x28u8,
        0x30u8 & 0x38u8 == 0x30u8,
        0x38u8 & 0x38u8 == 0x38u8,
        0x10u8 & 0xc0u8 == 0x00u8 && 0x10u8 & 0x0fu8 == 0x00u8,
        0x18u8 & 0xc0u8 == 0x00u8 && 0x18u8 & 0x0fu8 == 0x08u8,
        0x20u8 & 0xc0u8 == 0x00u8 && 0x20u8 & 0x0fu8 == 0x00u8,
        0x28u8 & 0xc0u8 == 0x00u8 && 0x28u8 & 0x0fu8 == 0x08u8,
        0x30u8 & 0xc0u8 == 0x00u8 && 0x30u8 & 0x0fu8 == 0x00u8,
        0x38u8 & 0xc0u8 == 0x00u8 && 0x38u8 & 0x0fu8 == 0x08u8,
        0x07u8 & 0xc0u8 == 0x00u8 && 0x07u8 & 0x0fu8 == 0x07u8 && 0x07u8 & 0x07u8 == 0x07u8,
        0x0fu8 & 0xc0u8 == 0x00u8 && 0x0fu8 & 0x0fu8 == 0x0fu8 && 0x0fu8 & 0x07u8 == 0x07u8,
        0x17u8 & 0xc0u8 == 0x00u8 && 0x17u8 & 0x0fu8 == 0x07u8 && 0x17u8 & 0x07u8 == 0x07u8,
        0x1fu8 & 0xc0u8 == 0x00u8 && 0x1fu8 & 0x0fu8 == 0x0fu8 && 0x1fu8 & 0x07u8 == 0x07u8,
        0x27u8 & 0xc0u8 == 0x00u8 && 0x27u8 & 0x0fu8 == 0x07u8 && 0x27u8 & 0x07u8 == 0x07u8,
        0x2fu8 & 0xc0u8 == 0x00u8 && 0x2fu8 & 0x0fu8 == 0x0fu8 && 0x2fu8 & 0x07u8 == 0x07u8,
        0x37u8 & 0xc0u8 == 0x00u8 && 0x37u8 & 0x0fu8 == 0x07u8 && 0x37u8 & 0x07u8 == 0x07u8,
        0x3fu8 & 0xc0u8 == 0x00u8 && 0x3fu8 & 0x0fu8 == 0x0fu8 && 0x3fu8 & 0x07u8 == 0x07u8,
        0x76u8 & 0xc0u8 == 0x40u8,
        0xcbu8 & 0xc0u8 == 0xc0u8,
{
}

// Constant folds for block 3: every defined byte there sits under top bits 11.
proof fn lemma_block3_constants()
    by (bit_vector)
    ensures
        0xc0u8 & 0xc0u8 == 0xc0u8 && 0xc8u8 & 0xc0u8 == 0xc0u8 && 0xd0u8 & 0xc0u8 == 0xc0u8
            && 0xd8u8 & 0xc0u8 == 0xc0u8,
        0xc1u8 & 0xc0u8 == 0xc0u8 && 0xd1u8 & 0xc0u8 == 0xc0u8 && 0xe1u8 & 0xc0u8 == 0xc0u8
            && 0xf1u8 & 0xc0u8 == 0xc0u8,
        0xc2u8 & 0xc0u8 == 0xc0u8 && 0xcau8 & 0xc0u8 == 0xc0u8 && 0xd2u8 & 0xc0u8 == 0xc0u8
            && 0xdau8 & 0xc0u8 == 0xc0u8,
        0xc3u8 & 0xc0u8 == 0xc0u8 && 0xcdu8 & 0xc0u8 == 0xc0u8 && 0xc9u8 & 0xc0u8 == 0xc0u8
            && 0xd9u8 & 0xc0u8 == 0xc0u8,
        0xc4u8 & 0xc0u8 == 0xc0u8 && 0xccu8 & 0xc0u8 == 0xc0u8 && 0xd4u8 & 0xc0u8 == 0xc0u8
            && 0xdcu8 & 0xc0u8 == 0xc0u8,
        0xc5u8 & 0xc0u8 == 0xc0u8 && 0xd5u8 & 0xc0u8 == 0xc0u8 && 0xe5u8 & 0xc0u8 == 0xc0u8
            && 0xf5u8 & 0xc0u8 == 0xc0u8,
        0xc6u8 & 0xc0u8 == 0xc0u8 && 0xceu8 & 0xc0u8 == 0xc0u8 && 0xd6u8 & 0xc0u8 == 0xc0u8
            && 0xdeu8 & 0xc0u8 == 0xc0u8,
        0xe6u8 & 0xc0u8 == 0xc0u8 && 0xeeu8 & 0xc0u8 == 0xc0u8 && 0xf6u8 & 0xc0u8 == 0xc0u8
            && 0xfeu8 & 0xc0u8 == 0xc0u8,
        0xc7u8 & 0xc0u8 == 0xc0u8 && 0xcfu8 & 0xc0u8 == 0xc0u8 && 0xd7u8 & 0xc0u8 == 0xc0u8
            && 0xdfu8 & 0xc0u8 == 0xc0u8,
        0xe7u8 & 0xc0u8 == 0xc0u8 && 0xefu8 & 0xc0u8 == 0xc0u8 && 0xf7u8 & 0xc0u8 == 0xc0u8
            && 0xffu8 & 0xc0u8 == 0xc0u8,
        0xe0u8 & 0xc0u8 == 0xc0u8 && 0xe2u8 & 0xc0u8 == 0xc0u8 && 0xe8u8 & 0xc0u8 == 0xc0u8
            && 0xe9u8 & 0xc0u8 == 0xc0u8,
        0xeau8 & 0xc0u8 == 0xc0u8 && 0xf0u8 & 0xc0u8 == 0xc0u8 && 0xf2u8 & 0xc0u8 == 0xc0u8
            && 0xf3u8 & 0xc0u8 == 0xc0u8,
        0xf8u8 & 0xc0u8 == 0xc0u8 && 0xf9u8 & 0xc0u8 == 0xc0u8 && 0xfau8 & 0xc0u8 == 0xc0u8
            && 0xfbu8 & 0xc0u8 == 0xc0u8,
{
}

// A block-0 opcode byte `low | (code << 4)`: which bits each decoder test sees.
proof fn lemma_block0_byte(low: u8, code: u8)
    by (bit_vector)
    requires
        code < 4,
        low == 0x01 || low == 0x02 || low == 0x0a || low == 0x03 || low == 0x0b || low == 0x09,
    ensures
        (low | (code << 4)) & 0xc0 == 0x00u8,
        (low | (code << 4)) != 0u8,
        (low | (code << 4)) != 0x08u8,
        (low | (code << 4)) & 0x0f == low,
        spec_extract_bits(low | (code << 4), 4, 5) == code,
{
}

// A block-0 register-slot byte `low3 | (code << 3)` (inc r8, dec r8,
// ld r8, imm8): which bits each decoder test sees.
proof fn lemma_block0_r8slot(low3: u8, code: u8)
    by (bit_vector)
    requires
        code < 8,
        low3 == 0x04 || low3 == 0x05 || low3 == 0x06,
    ensures
        (low3 | (code << 3)) & 0xc0 == 0x00u8,
        (low3 | (code << 3)) != 0u8 && (low3 | (code << 3)) != 0x08u8,
        (low3 | (code << 3)) != 0x10u8 && (low3 | (code << 3)) != 0x18u8,
        (low3 | (code << 3)) != 0x20u8 && (low3 | (code << 3)) != 0x28u8,
        (low3 | (code << 3)) != 0x30u8 && (low3 | (code << 3)) != 0x38u8,
        (low3 | (code << 3)) & 0x0f != 0x01u8 && (low3 | (code << 3)) & 0x0f != 0x02u8,
        (low3 | (code << 3)) & 0x0f != 0x0au8 && (low3 | (code << 3)) & 0x0f != 0x03u8,
        (low3 | (code << 3)) & 0x0f != 0x0bu8 && (low3 | (code << 3)) & 0x0f != 0x09u8,
        (low3 | (code << 3)) & 0x07 == low3,
        spec_extract_bits(low3 | (code << 3), 3, 5) == code,
{
}

// A block-1 opcode byte `0x40 | (dc << 3) | sc` (ld r8, r8): which bits each
// decoder test sees.
proof fn lemma_block1_byte(dc: u8, sc: u8)
    by (bit_vector)
    requires
        dc < 8,
        sc < 8,
        !(dc == 6 && sc == 6),
    ensures
        (0x40u8 | (dc << 3) | sc) & 0xc0 == 0x40u8,
        (0x40u8 | (dc << 3) | sc) != 0x76u8,
        spec_extract_bits(0x40u8 | (dc << 3) | sc, 3, 5) == dc,
        spec_extract_bits(0x40u8 | (dc << 3) | sc, 0, 2) == sc,
{
}

// A block-2 opcode byte `base | rc`: which bits each decoder test sees.
proof fn lemma_block2_byte(base: u8, rc: u8)
    by (bit_vector)
    requires
        rc < 8,
        base == 0x80 || base == 0x88 || base == 0x90 || base == 0x98 || base == 0xa0 || base
            == 0xa8 || base == 0xb0 || base == 0xb8,
    ensures
        (base | rc) & 0xc0 == 0x80u8,
        (base | rc) & 0x38 == base & 0x38,
        base == 0x80 ==> base & 0x38 == 0x00u8,
        base == 0x88 ==> base & 0x38 == 0x08u8,
        base == 0x90 ==> base & 0x38 == 0x10u8,
        base == 0x98 ==> base & 0x38 == 0x18u8,
        base == 0xa0 ==> base & 0x38 == 0x20u8,
        base == 0xa8 ==> base & 0x38 == 0x28u8,
        base == 0xb0 ==> base & 0x38 == 0x30u8,
        base == 0xb8 ==> base & 0x38 == 0x38u8,
        spec_extract_bits(base | rc, 0, 2) == rc,
{
}

// A restart opcode byte `0xc7 | (t << 3)`: the exact byte each target gives.
proof fn lemma_rst_byte(t: u8)
    by (bit_vector)
    requires
        t < 8,
    ensures
        t == 0 ==> 0xc7u8 | (t << 3) == 0xc7u8,
        t == 1 ==> 0xc7u8 | (t << 3) == 0xcfu8,
        t == 2 ==> 0xc7u8 | (t << 3) == 0xd7u8,
        t == 3 ==> 0xc7u8 | (t << 3) == 0xdfu8,
        t == 4 ==> 0xc7u8 | (t << 3) == 0xe7u8,
        t == 5 ==> 0xc7u8 | (t << 3) == 0xefu8,
        t == 6 ==> 0xc7u8 | (t << 3) == 0xf7u8,
        t == 7 ==> 0xc7u8 | (t << 3) == 0xffu8,
{
}

// A rotate/shift/swap byte after the 0xCB prefix: `base | rc`.
proof fn lemma_cb_rot_byte(base: u8, rc: u8)
    by (bit_vector)
    requires
        rc < 8,
        base == 0x00 || base == 0x08 || base == 0x10 || base == 0x18 || base == 0x20 || base
            == 0x28 || base == 0x30 || base == 0x38,
    ensures
        (base | rc) & 0xc0 == 0x00u8,
        base == 0x00 ==> base | rc == rc,
        base == 0x00 ==> rc & 0xc0 == 0x00u8,
        base == 0x00 ==> spec_extract_bits(rc, 3, 5) == 0,
        base == 0x00 ==> spec_extract_bits(rc, 0, 2) == rc,
        base == 0x00 ==> spec_extract_bits(base | rc, 3, 5) == 0,
        base == 0x08 ==> spec_extract_bits(base | rc, 3, 5) == 1,
        base == 0x10 ==> spec_extract_bits(base | rc, 3, 5) == 2,
        base == 0x18 ==> spec_extract_bits(base | rc, 3, 5) == 3,
        base == 0x20 ==> spec_extract_bits(base | rc, 3, 5) == 4,
        base == 0x28 ==> spec_extract_bits(base | rc, 3, 5) == 5,
        base == 0x30 ==> spec_extract_bits(base | rc, 3, 5) == 6,
        base == 0x38 ==> spec_extract_bits(base | rc, 3, 5) == 7,
        spec_extract_bits(base | rc, 0, 2) == rc,
{
}

// A bit/res/set byte after the 0xCB prefix: `cls | (b3 << 3) | rc`.
proof fn lemma_cb_bit_byte(cls: u8, b3: u8, rc: u8)
    by (bit_vector)
    requires
        b3 < 8,
        rc < 8,
        cls == 0x40 || cls == 0x80 || cls == 0xc0,
    ensures
        (cls | (b3 << 3) | rc) & 0xc0 == cls,
        spec_extract_bits(cls | (b3 << 3) | rc, 3, 5) == b3,
        spec_extract_bits(cls | (b3 << 3) | rc, 0, 2) == rc,
{
}

// Splitting a 16-bit immediate into its little-endian bytes and reassembling
// them gives it back.
proof fn lemma_word_split(imm: u16)
    by (bit_vector)
    ensures
        spec_word((imm & 0x00ff) as u8, (imm >> 8) as u8) == imm,
{
}

/// The round-trip statement: decoding the encoded bytes — with `lo`/`hi`
/// standing in for operand bytes the encoding does not constrain — yields
/// the instruction back.
pub open spec fn spec_roundtrips(inst: Instruction, lo: u8, hi: u8) -> bool {
    let e = spec_encode(inst)->0;
    spec_decode(
        e[0],
        if e.len() >= 2 {
            e[1]
        } else {
            lo
        },
        if e.len() >= 3 {
            e[2]
        } else {
            hi
        },
    ) == Ok::<Instruction, DecodeError>(inst)
}

#[verifier::rlimit(100)]
#[verifier::spinoff_prover]
proof fn lemma_roundtrip_load(inst: Instruction, lo: u8, hi: u8)
    requires
        spec_encode(inst) is Some,
        is_load_inst(inst),
    ensures
        spec_roundtrips(inst, lo, hi),
{
    lemma_pattern_constants();
    lemma_block3_constants();
    match inst {
        Instruction::LdR16Imm16(r) => lemma_block0_byte(0x01, spec_r16_code(r)),
        Instruction::LdR16MemA(m) => lemma_block0_byte(0x02, spec_r16_mem_code(m)),
        Instruction::LdAR16Mem(m) => lemma_block0_byte(0x0a, spec_r16_mem_code(m)),
        Instruction::LdImm16SP => {},
        Instruction::LdAImm16(imm) => lemma_word_split(imm),
        Instruction::LdImm16A(imm) => lemma_word_split(imm),
        Instruction::LdhAImm8(_) => {},
        Instruction::LdhImm8A(_) => {},
        Instruction::LdhAC => {},
        Instruction::LdhCA => {},
        Instruction::LdR8R8(d, s) => lemma_block1_byte(spec_r8_code(d), spec_r8_code(s)),
        Instruction::LdR8Imm8(r) => lemma_block0_r8slot(0x06, spec_r8_code(r)),
        Instruction::LdSpHl => {},
        _ => {},
    }
}

#[verifier::rlimit(100)]
#[verifier::spinoff_prover]
proof fn lemma_roundtrip_arith(inst: Instruction, lo: u8, hi: u8)
    requires
        spec_encode(inst) is Some,
        is_arith_inst(inst),
    ensures
        spec_roundtrips(inst, lo, hi),
{
    lemma_pattern_constants();
    lemma_block3_constants();
    match inst {
        Instruction::IncR16(r) => lemma_block0_byte(0x03, spec_r16_code(r)),
        Instruction::DecR16(r) => lemma_block0_byte(0x0b, spec_r16_code(r)),
        Instruction::AddHlR16(r) => lemma_block0_byte(0x09, spec_r16_code(r)),
        Instruction::IncR8(r) => lemma_block0_r8slot(0x04, spec_r8_code(r)),
        Instruction::DecR8(r) => lemma_block0_r8slot(0x05, spec_r8_code(r)),
        Instruction::AddAR8(r) => lemma_block2_byte(0x80, spec_r8_code(r)),
        Instruction::AdcAR8(r) => lemma_block2_byte(0x88, spec_r8_code(r)),
        Instruction::SubAR8(r) => lemma_block2_byte(0x90, spec_r8_code(r)),
        Instruction::SbcAR8(r) => lemma_block2_byte(0x98, spec_r8_code(r)),
        Instruction::AndAR8(r) => lemma_block2_byte(0xa0, spec_r8_code(r)),
        Instruction::XorAR8(r) => lemma_block2_byte(0xa8, spec_r8_code(r)),
        Instruction::OrAR8(r) => lemma_block2_byte(0xb0, spec_r8_code(r)),
        Instruction::CpAR8(r) => lemma_block2_byte(0xb8, spec_r8_code(r)),
        _ => {},
    }
}

#[verifier::rlimit(100)]
#[verifier::spinoff_prover]
proof fn lemma_roundtrip_control(inst: Instruction, lo: u8, hi: u8)
    requires
        spec_encode(inst) is Some,
        is_control_inst(inst),
    ensures
        spec_roundtrips(inst, lo, hi),
{
    lemma_pattern_constants();
    lemma_block3_constants();
    match inst {
        Instruction::JpImm16(imm) => lemma_word_split(imm),
        Instruction::JpCondImm16(_, imm) => lemma_word_split(imm),
        Instruction::CallImm16(imm) => lemma_word_split(imm),
        Instruction::CallCondImm16(_, imm) => lemma_word_split(imm),
        Instruction::RstTgt3(t) => lemma_rst_byte(t),
        _ => {},
    }
}

#[verifier::rlimit(100)]
#[verifier::spinoff_prover]
proof fn lemma_roundtrip_cb(inst: Instruction, lo: u8, hi: u8)
    requires
        spec_encode(inst) is Some,
        is_cb_inst(inst),
    ensures
        spec_roundtrips(inst, lo, hi),
{
    lemma_pattern_constants();
    lemma_block3_constants();
    match inst {
        Instruction::RlcR8(r) => lemma_cb_rot_byte(0x00, spec_r8_code(r)),
        Instruction::RrcR8(r) => lemma_cb_rot_byte(0x08, spec_r8_code(r)),
        Instruction::RlR8(r) => lemma_cb_rot_byte(0x10, spec_r8_code(r)),
        Instruction::RrR8(r) => lemma_cb_rot_byte(0x18, spec_r8_code(r)),
        Instruction::SlaR8(r) => lemma_cb_rot_byte(0x20, spec_r8_code(r)),
        Instruction::SraR8(r) => lemma_cb_rot_byte(0x28, spec_r8_code(r)),
        Instruction::SwapR8(r) => lemma_cb_rot_byte(0x30, spec_r8_code(r)),
        Instruction::SrlR8(r) => lemma_cb_rot_byte(0x38, spec_r8_code(r)),
        Instruction::BitB3R8(b3, r) => lemma_cb_bit_byte(0x40, b3, spec_r8_code(r)),
        Instruction::ResB3R8(b3, r) => lemma_cb_bit_byte(0x80, b3, spec_r8_code(r)),
        Instruction::SetB3R8(b3, r) => lemma_cb_bit_byte(0xc0, b3, spec_r8_code(r)),
        _ => {},
    }
}

#[verifier::rlimit(100)]
#[verifier::spinoff_prover]
proof fn lemma_roundtrip_misc(inst: Instruction, lo: u8, hi: u8)
    requires
        spec_encode(inst) is Some,
        !is_load_inst(inst),
        !is_arith_inst(inst),
        !is_control_inst(inst),
        !is_cb_inst(inst),
    ensures
        spec_roundtrips(inst, lo, hi),
{
    lemma_pattern_constants();
    lemma_block3_constants();
}

/// Law: round trip. Encoding any representable instruction and decoding the
/// resulting bytes — whatever bytes follow an encoding that carries no
/// operand bytes — yields the original instruction back.
pub proof fn lemma_encode_decode_roundtrip(inst: Instruction, lo: u8, hi: u8)
    requires
        spec_encode(inst) is Some,
    ensures
        spec_roundtrips(inst, lo, hi),
{
    if is_load_inst(inst) {
        lemma_roundtrip_load(inst, lo, hi);
    } else if is_arith_inst(inst) {
        lemma_roundtrip_arith(inst, lo, hi);
    } else if is_control_inst(inst) {
        lemma_roundtrip_control(inst, lo, hi);
    } else if is_cb_inst(inst) {
        lemma_roundtrip_cb(inst, lo, hi);
    } else {
        lemma_roundtrip_misc(inst, lo, hi);
    }
}

/// The PC-advance statement of `lemma_step_pc_advance`.
pub open spec fn spec_pc_advances(m: MachineModel, inst: Instruction) -> bool {
    spec_exec(m, inst).regs.pc == u16_specs::wrapping_add(
        m.regs.pc,
        (1 + instructions::spec_extra_bytes(inst)) as u16,
    )
}

#[verifier::rlimit(100)]
#[verifier::spinoff_prover]
proof fn lemma_step_pc_advance_load(m: MachineModel, inst: Instruction)
    requires
        is_load_inst(inst),
    ensures
        spec_pc_advances(m, inst),
{
}

#[verifier::rlimit(100)]
#[verifier::spinoff_prover]
proof fn lemma_step_pc_advance_arith(m: MachineModel, inst: Instruction)
    requires
        is_arith_inst(inst),
    ensures
        spec_pc_advances(m, inst),
{
}

#[verifier::rlimit(100)]
#[verifier::spinoff_prover]
proof fn lemma_step_pc_advance_cb(m: MachineModel, inst: Instruction)
    requires
        is_cb_inst(inst),
    ensures
        spec_pc_advances(m, inst),
{
}

#[verifier::rlimit(100)]
#[verifier::spinoff_prover]
proof fn lemma_step_pc_advance_misc(m: MachineModel, inst: Instruction)
    requires
        !is_control_inst(inst),
        !is_load_inst(inst),
        !is_arith_inst(inst),
        !is_cb_inst(inst),
    ensures
        spec_pc_advances(m, inst),
{
}

/// Law: executing any instruction that does not redirect PC advances PC by
/// exactly the opcode byte plus the operand byte count the instruction
/// reports, so a caller advancing PC by `1 + extra_bytes` agrees with the
/// executor.
pub proof fn lemma_step_pc_advance(m: MachineModel, inst: Instruction)
    requires
        !is_control_inst(inst),
    ensures
        spec_pc_advances(m, inst),
{
    if is_load_inst(inst) {
        lemma_step_pc_advance_load(m, inst);
    } else if is_arith_inst(inst) {
        lemma_step_pc_advance_arith(m, inst);
    } else if is_cb_inst(inst) {
        lemma_step_pc_advance_cb(m, inst);
    } else {
        lemma_step_pc_advance_misc(m, inst);
    }
}

/// The 0xCB-prefixed bit operations.
pub open spec fn is_cb_inst(inst: Instruction) -> bool {
    match inst {
        Instruction::RlcR8(_) => true,
        Instruction::RrcR8(_) => true,
        Instruction::RlR8(_) => true,
        Instruction::RrR8(_) => true,
        Instruction::SlaR8(_) => true,
        Instruction::SraR8(_) => true,
        Instruction::SwapR8(_) => true,
        Instruction::SrlR8(_) => true,
        Instruction::BitB3R8(_, _) => true,
        Instruction::ResB3R8(_, _) => true,
        Instruction::SetB3R8(_, _) => true,
        _ => false,
    }
}

} // verus!
