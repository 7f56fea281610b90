//! The SM83 instruction taxonomy: small closed operand classes (R8, R16,
//! R16Stk, R16Mem, Cond) composed into one flat `Instruction` variant, with
//! the decoding of each operand-selecting bit field and the opcode encoder.

use super::DecodeError;
use vstd::prelude::*;

verus! {

/// An 8-bit operand selected by a 3-bit field, in this canonical order
/// (`HL` means the byte addressed by HL).
#[derive(PartialEq, Eq, Clone, Copy, Debug, Structural)]
pub enum OpR8 {
    B,
    C,
    D,
    E,
    H,
    L,
    HL,
    A,
}

/// A 16-bit register operand selected by a 2-bit field.
#[derive(PartialEq, Eq, Clone, Copy, Debug, Structural)]
pub enum OpR16 {
    BC,
    DE,
    HL,
    SP,
}

/// A stack push/pop pair selected by a 2-bit field.
#[derive(PartialEq, Eq, Clone, Copy, Debug, Structural)]
pub enum OpR16Stk {
    BC,
    DE,
    HL,
    AF,
}

/// A memory-indirect addressing mode selected by a 2-bit field
/// (`HLPlus`/`HLMinus` post-increment/post-decrement HL).
#[derive(PartialEq, Eq, Clone, Copy, Debug, Structural)]
pub enum OpR16Mem {
    BC,
    DE,
    HLPlus,
    HLMinus,
}

/// A branch condition selected by a 2-bit field.
#[derive(PartialEq, Eq, Clone, Copy, Debug, Structural)]
pub enum OpCond {
    NZ,
    Z,
    NC,
    C,
}

/// One SM83 mnemonic with its operand classes.
#[derive(PartialEq, Eq, Clone, Copy, Debug, Structural)]
pub enum Instruction {
    /// adc a, r8
    AdcAR8(OpR8),
    /// adc a, imm8
    AdcAImm8,
    /// add a, r8
    AddAR8(OpR8),
    /// add hl, r16
    AddHlR16(OpR16),
    /// add a, imm8
    AddAImm8,
    /// add sp, imm8 (signed)
    AddSpImm8,
    /// and a, r8
    AndAR8(OpR8),
    /// and a, imm8
    AndAImm8,
    /// bit b3, r8
    BitB3R8(u8, OpR8),
    /// call cond, imm16
    CallCondImm16(OpCond, u16),
    /// call imm16
    CallImm16(u16),
    /// ccf
    Ccf,
    /// cp a, r8
    CpAR8(OpR8),
    /// cp a, imm8
    CpAImm8,
    /// cpl
    Cpl,
    /// daa
    Daa,
    /// dec r16
    DecR16(OpR16),
    /// dec r8
    DecR8(OpR8),
    /// di
    Di,
    /// ei
    Ei,
    /// halt
    Halt,
    /// inc r16
    IncR16(OpR16),
    /// inc r8
    IncR8(OpR8),
    /// jr imm8
    JrImm8,
    /// jr cond, imm8
    JrCondImm8(OpCond),
    /// jp cond, imm16
    JpCondImm16(OpCond, u16),
    /// jp imm16
    JpImm16(u16),
    /// jp hl
    JpHl,
    /// ld r16, imm16
    LdR16Imm16(OpR16),
    /// ld [r16mem], a
    LdR16MemA(OpR16Mem),
    /// ld a, [r16mem]
    LdAR16Mem(OpR16Mem),
    /// ld a, [imm16]
    LdAImm16(u16),
    /// ld [imm16], a
    LdImm16A(u16),
    /// ld [imm16], sp
    LdImm16SP,
    /// ld hl, sp + imm8 (signed)
    LdHlSpImm8,
    /// ld sp, hl
    LdSpHl,
    /// ld r8, r8 (destination, source)
    LdR8R8(OpR8, OpR8),
    /// ld r8, imm8
    LdR8Imm8(OpR8),
    /// ldh a, [imm8]
    LdhAImm8(u8),
    /// ldh [imm8], a
    LdhImm8A(u8),
    /// ldh [c], a
    LdhCA,
    /// ldh a, [c]
    LdhAC,
    /// nop
    Nop,
    /// or a, r8
    OrAR8(OpR8),
    /// or a, imm8
    OrAImm8,
    /// pop r16stk
    Pop(OpR16Stk),
    /// push r16stk
    Push(OpR16Stk),
    /// res b3, r8
    ResB3R8(u8, OpR8),
    /// ret cond
    RetCond(OpCond),
    /// ret
    Ret,
    /// reti
    Reti,
    /// rl r8
    RlR8(OpR8),
    /// rla
    Rla,
    /// rlc r8
    RlcR8(OpR8),
    /// rlca
    Rlca,
    /// rr r8
    RrR8(OpR8),
    /// rra
    Rra,
    /// rrca
    Rrca,
    /// rrc r8
    RrcR8(OpR8),
    /// rst tgt3 (target address divided by 8, so 0x00-0x38 in steps of 8)
    RstTgt3(u8),
    /// sbc a, r8
    SbcAR8(OpR8),
    /// sbc a, imm8
    SbcAImm8,
    /// scf
    Scf,
    /// set b3, r8
    SetB3R8(u8, OpR8),
    /// sla r8
    SlaR8(OpR8),
    /// sra r8
    SraR8(OpR8),
    /// srl r8
    SrlR8(OpR8),
    /// stop
    Stop,
    /// sub a, r8
    SubAR8(OpR8),
    /// sub a, imm8
    SubAImm8,
    /// swap r8
    SwapR8(OpR8),
    /// xor a, r8
    XorAR8(OpR8),
    /// xor a, imm8
    XorAImm8,
}

/// The 8-bit operand selected by a 3-bit field value, in the canonical order
/// B, C, D, E, H, L, HL-indirect, A.
pub open spec fn spec_r8_operand(value: u8) -> OpR8 {
    if value == 0 {
        OpR8::B
    } else if value == 1 {
        OpR8::C
    } else if value == 2 {
        OpR8::D
    } else if value == 3 {
        OpR8::E
    } else if value == 4 {
        OpR8::H
    } else if value == 5 {
        OpR8::L
    } else if value == 6 {
        OpR8::HL
    } else {
        OpR8::A
    }
}

/// The 16-bit register selected by a 2-bit field value: BC, DE, HL, SP.
pub open spec fn spec_r16_operand(value: u8) -> OpR16 {
    if value == 0 {
        OpR16::BC
    } else if value == 1 {
        OpR16::DE
    } else if value == 2 {
        OpR16::HL
    } else {
        OpR16::SP
    }
}

/// The stack pair selected by a 2-bit field value: BC, DE, HL, AF.
pub open spec fn spec_r16_stk_operand(value: u8) -> OpR16Stk {
    if value == 0 {
        OpR16Stk::BC
    } else if value == 1 {
        OpR16Stk::DE
    } else if value == 2 {
        OpR16Stk::HL
    } else {
        OpR16Stk::AF
    }
}

/// The addressing mode selected by a 2-bit field value: BC, DE, HL+, HL-.
pub open spec fn spec_r16_mem_operand(value: u8) -> OpR16Mem {
    if value == 0 {
        OpR16Mem::BC
    } else if value == 1 {
        OpR16Mem::DE
    } else if value == 2 {
        OpR16Mem::HLPlus
    } else {
        OpR16Mem::HLMinus
    }
}

/// Decoding of an operand-selecting bit field. A field value outside the
/// class's range is rejected; with correctly sized fields (3-bit for R8,
/// 2-bit for the rest) that branch is a defensive invariant check only.
pub trait DecodeFromU8 where Self: Sized {
    /// The operand each field value decodes to, or the error for a value
    /// outside the field's range.
    spec fn spec_decode_from(value: u8) -> Result<Self, DecodeError>;

    /// Decodes the field value.
    fn decode_from(value: u8) -> (r: Result<Self, DecodeError>)
        ensures
            r == Self::spec_decode_from(value),
    ;
}

impl DecodeFromU8 for OpR8 {
    open spec fn spec_decode_from(value: u8) -> Result<OpR8, DecodeError> {
        if value < 8 {
            Ok(spec_r8_operand(value))
        } else {
            Err(DecodeError::InvalidR8)
        }
    }

    fn decode_from(value: u8) -> (r: Result<OpR8, DecodeError>) {
        match value {
            0 => Ok(OpR8::B),
            1 => Ok(OpR8::C),
            2 => Ok(OpR8::D),
            3 => Ok(OpR8::E),
            4 => Ok(OpR8::H),
            5 => Ok(OpR8::L),
            6 => Ok(OpR8::HL),
            7 => Ok(OpR8::A),
            _ => Err(DecodeError::InvalidR8),
        }
    }
}

impl DecodeFromU8 for OpR16 {
    open spec fn spec_decode_from(value: u8) -> Result<OpR16, DecodeError> {
        if value < 4 {
            Ok(spec_r16_operand(value))
        } else {
            Err(DecodeError::InvalidR16)
        }
    }

    fn decode_from(value: u8) -> (r: Result<OpR16, DecodeError>) {
        match value {
            0 => Ok(OpR16::BC),
            1 => Ok(OpR16::DE),
            2 => Ok(OpR16::HL),
            3 => Ok(OpR16::SP),
            _ => Err(DecodeError::InvalidR16),
        }
    }
}

impl DecodeFromU8 for OpR16Mem {
    open spec fn spec_decode_from(value: u8) -> Result<OpR16Mem, DecodeError> {
        if value < 4 {
            Ok(spec_r16_mem_operand(value))
        } else {
            Err(DecodeError::InvalidR16)
        }
    }

    fn decode_from(value: u8) -> (r: Result<OpR16Mem, DecodeError>) {
        match value {
            0 => Ok(OpR16Mem::BC),
            1 => Ok(OpR16Mem::DE),
            2 => Ok(OpR16Mem::HLPlus),
            3 => Ok(OpR16Mem::HLMinus),
            _ => Err(DecodeError::InvalidR16),
        }
    }
}

impl DecodeFromU8 for OpR16Stk {
    open spec fn spec_decode_from(value: u8) -> Result<OpR16Stk, DecodeError> {
        if value < 4 {
            Ok(spec_r16_stk_operand(value))
        } else {
            Err(DecodeError::InvalidR16)
        }
    }

    fn decode_from(value: u8) -> (r: Result<OpR16Stk, DecodeError>) {
        match value {
            0 => Ok(OpR16Stk::BC),
            1 => Ok(OpR16Stk::DE),
            2 => Ok(OpR16Stk::HL),
            3 => Ok(OpR16Stk::AF),
            _ => Err(DecodeError::InvalidR16),
        }
    }
}

/// The 2-bit field value that selects an R16 operand; inverse of
/// `spec_r16_operand` on 0..4.
pub open spec fn spec_r16_code(r: OpR16) -> u8 {
    match r {
        OpR16::BC => 0,
        OpR16::DE => 1,
        OpR16::HL => 2,
        OpR16::SP => 3,
    }
}

/// The 2-bit field value that selects an R16Mem operand; inverse of
/// `spec_r16_mem_operand` on 0..4.
pub open spec fn spec_r16_mem_code(m: OpR16Mem) -> u8 {
    match m {
        OpR16Mem::BC => 0,
        OpR16Mem::DE => 1,
        OpR16Mem::HLPlus => 2,
        OpR16Mem::HLMinus => 3,
    }
}

/// The 3-bit field value that selects an R8 operand; inverse of
/// `spec_r8_operand` on 0..8.
pub open spec fn spec_r8_code(r: OpR8) -> u8 {
    match r {
        OpR8::B => 0,
        OpR8::C => 1,
        OpR8::D => 2,
        OpR8::E => 3,
        OpR8::H => 4,
        OpR8::L => 5,
        OpR8::HL => 6,
        OpR8::A => 7,
    }
}

/// The field codes invert field decoding on the field's range.
pub proof fn lemma_r16_code_inverse(x: u8)
    requires
        x < 4,
    ensures
        spec_r16_code(spec_r16_operand(x)) == x,
{
}

pub proof fn lemma_r16_mem_code_inverse(x: u8)
    requires
        x < 4,
    ensures
        spec_r16_mem_code(spec_r16_mem_operand(x)) == x,
{
}

pub proof fn lemma_r8_code_inverse(x: u8)
    requires
        x < 8,
    ensures
        spec_r8_code(spec_r8_operand(x)) == x,
{
}
/// How many operand bytes follow the opcode byte in the instruction's
/// encoding: 2 for a little-endian imm16, 1 for an imm8 or for the second
/// byte of a 0xCB-prefixed bit operation, 0 otherwise.
pub open spec fn spec_extra_bytes(inst: Instruction) -> u8 {
    match inst {
        Instruction::LdR16Imm16(_) => 2,
        Instruction::LdImm16SP => 2,
        Instruction::LdAImm16(_) => 2,
        Instruction::LdImm16A(_) => 2,
        Instruction::CallCondImm16(_, _) => 2,
        Instruction::CallImm16(_) => 2,
        Instruction::JpCondImm16(_, _) => 2,
        Instruction::JpImm16(_) => 2,
        Instruction::AdcAImm8 => 1,
        Instruction::AddAImm8 => 1,
        Instruction::AddSpImm8 => 1,
        Instruction::AndAImm8 => 1,
        Instruction::CpAImm8 => 1,
        Instruction::OrAImm8 => 1,
        Instruction::SbcAImm8 => 1,
        Instruction::SubAImm8 => 1,
        Instruction::XorAImm8 => 1,
        Instruction::JrImm8 => 1,
        Instruction::JrCondImm8(_) => 1,
        Instruction::LdR8Imm8(_) => 1,
        Instruction::LdHlSpImm8 => 1,
        Instruction::LdhAImm8(_) => 1,
        Instruction::LdhImm8A(_) => 1,
        Instruction::BitB3R8(_, _) => 1,
        Instruction::ResB3R8(_, _) => 1,
        Instruction::SetB3R8(_, _) => 1,
        Instruction::RlR8(_) => 1,
        Instruction::RlcR8(_) => 1,
        Instruction::RrR8(_) => 1,
        Instruction::RrcR8(_) => 1,
        Instruction::SlaR8(_) => 1,
        Instruction::SraR8(_) => 1,
        Instruction::SrlR8(_) => 1,
        Instruction::SwapR8(_) => 1,
        _ => 0,
    }
}

/// The byte sequence that encodes the instruction: the opcode byte (two for
/// a 0xCB-prefixed bit operation), followed by the immediate bytes the
/// variant carries. `None` only for the unencodable payloads: an `ld r8, r8`
/// between two HL-indirect operands (that slot is `halt`) and a bit index or
/// restart target outside 0..8. Inverse of the decoder: see
/// `lemma_encode_decode_roundtrip`.
pub open spec fn spec_encode(inst: Instruction) -> Option<Seq<u8>> {
    match inst {
        Instruction::AdcAR8(r) => Some(seq![0x88u8 | spec_r8_code(r)]),
        Instruction::AdcAImm8 => Some(seq![0xceu8]),
        Instruction::AddAR8(r) => Some(seq![0x80u8 | spec_r8_code(r)]),
        Instruction::AddHlR16(r) => Some(seq![0x09u8 | (spec_r16_code(r) << 4)]),
        Instruction::AddAImm8 => Some(seq![0xc6u8]),
        Instruction::AddSpImm8 => Some(seq![0xe8u8]),
        Instruction::AndAR8(r) => Some(seq![0xa0u8 | spec_r8_code(r)]),
        Instruction::AndAImm8 => Some(seq![0xe6u8]),
        Instruction::BitB3R8(b3, r) => if b3 < 8 {
            Some(seq![0xcbu8, 0x40u8 | (b3 << 3) | spec_r8_code(r)])
        } else {
            None
        },
        Instruction::CallCondImm16(c, imm) => Some(
            seq![
                match c {
                    OpCond::NZ => 0xc4u8,
                    OpCond::Z => 0xccu8,
                    OpCond::NC => 0xd4u8,
                    OpCond::C => 0xdcu8,
                },
                (imm & 0x00ff) as u8,
                (imm >> 8) as u8,
            ],
        ),
        Instruction::CallImm16(imm) => Some(
            seq![0xcdu8, (imm & 0x00ff) as u8, (imm >> 8) as u8],
        ),
        Instruction::Ccf => Some(seq![0x3fu8]),
        Instruction::CpAR8(r) => Some(seq![0xb8u8 | spec_r8_code(r)]),
        Instruction::CpAImm8 => Some(seq![0xfeu8]),
        Instruction::Cpl => Some(seq![0x2fu8]),
        Instruction::Daa => Some(seq![0x27u8]),
        Instruction::DecR16(r) => Some(seq![0x0bu8 | (spec_r16_code(r) << 4)]),
        Instruction::DecR8(r) => Some(seq![0x05u8 | (spec_r8_code(r) << 3)]),
        Instruction::Di => Some(seq![0xf3u8]),
        Instruction::Ei => Some(seq![0xfbu8]),
        Instruction::Halt => Some(seq![0x76u8]),
        Instruction::IncR16(r) => Some(seq![0x03u8 | (spec_r16_code(r) << 4)]),
        Instruction::IncR8(r) => Some(seq![0x04u8 | (spec_r8_code(r) << 3)]),
        Instruction::JrImm8 => Some(seq![0x18u8]),
        Instruction::JrCondImm8(c) => Some(
            seq![
                match c {
                    OpCond::NZ => 0x20u8,
                    OpCond::Z => 0x28u8,
                    OpCond::NC => 0x30u8,
                    OpCond::C => 0x38u8,
                },
            ],
        ),
        Instruction::JpCondImm16(c, imm) => Some(
            seq![
                match c {
                    OpCond::NZ => 0xc2u8,
                    OpCond::Z => 0xcau8,
                    OpCond::NC => 0xd2u8,
                    OpCond::C => 0xdau8,
                },
                (imm & 0x00ff) as u8,
                (imm >> 8) as u8,
            ],
        ),
        Instruction::JpImm16(imm) => Some(seq![0xc3u8, (imm & 0x00ff) as u8, (imm >> 8) as u8]),
        Instruction::JpHl => Some(seq![0xe9u8]),
        Instruction::LdR16Imm16(r) => Some(seq![0x01u8 | (spec_r16_code(r) << 4)]),
        Instruction::LdR16MemA(m) => Some(seq![0x02u8 | (spec_r16_mem_code(m) << 4)]),
        Instruction::LdAR16Mem(m) => Some(seq![0x0au8 | (spec_r16_mem_code(m) << 4)]),
        Instruction::LdAImm16(imm) => Some(seq![0xfau8, (imm & 0x00ff) as u8, (imm >> 8) as u8]),
        Instruction::LdImm16A(imm) => Some(seq![0xeau8, (imm & 0x00ff) as u8, (imm >> 8) as u8]),
        Instruction::LdImm16SP => Some(seq![0x08u8]),
        Instruction::LdHlSpImm8 => Some(seq![0xf8u8]),
        Instruction::LdSpHl => Some(seq![0xf9u8]),
        Instruction::LdR8R8(d, s) => if d == OpR8::HL && s == OpR8::HL {
            None
        } else {
            Some(seq![0x40u8 | (spec_r8_code(d) << 3) | spec_r8_code(s)])
        },
        Instruction::LdR8Imm8(r) => Some(seq![0x06u8 | (spec_r8_code(r) << 3)]),
        Instruction::LdhAImm8(n) => Some(seq![0xf0u8, n]),
        Instruction::LdhImm8A(n) => Some(seq![0xe0u8, n]),
        Instruction::LdhCA => Some(seq![0xe2u8]),
        Instruction::LdhAC => Some(seq![0xf2u8]),
        Instruction::Nop => Some(seq![0x00u8]),
        Instruction::OrAR8(r) => Some(seq![0xb0u8 | spec_r8_code(r)]),
        Instruction::OrAImm8 => Some(seq![0xf6u8]),
        Instruction::Pop(p) => Some(
            seq![
                match p {
                    OpR16Stk::BC => 0xc1u8,
                    OpR16Stk::DE => 0xd1u8,
                    OpR16Stk::HL => 0xe1u8,
                    OpR16Stk::AF => 0xf1u8,
                },
            ],
        ),
        Instruction::Push(p) => Some(
            seq![
                match p {
                    OpR16Stk::BC => 0xc5u8,
                    OpR16Stk::DE => 0xd5u8,
                    OpR16Stk::HL => 0xe5u8,
                    OpR16Stk::AF => 0xf5u8,
                },
            ],
        ),
        Instruction::ResB3R8(b3, r) => if b3 < 8 {
            Some(seq![0xcbu8, 0x80u8 | (b3 << 3) | spec_r8_code(r)])
        } else {
            None
        },
        Instruction::RetCond(c) => Some(
            seq![
                match c {
                    OpCond::NZ => 0xc0u8,
                    OpCond::Z => 0xc8u8,
                    OpCond::NC => 0xd0u8,
                    OpCond::C => 0xd8u8,
                },
            ],
        ),
        Instruction::Ret => Some(seq![0xc9u8]),
        Instruction::Reti => Some(seq![0xd9u8]),
        Instruction::RlR8(r) => Some(seq![0xcbu8, 0x10u8 | spec_r8_code(r)]),
        Instruction::Rla => Some(seq![0x17u8]),
        Instruction::RlcR8(r) => Some(seq![0xcbu8, spec_r8_code(r)]),
        Instruction::Rlca => Some(seq![0x07u8]),
        Instruction::RrR8(r) => Some(seq![0xcbu8, 0x18u8 | spec_r8_code(r)]),
        Instruction::Rra => Some(seq![0x1fu8]),
        Instruction::Rrca => Some(seq![0x0fu8]),
        Instruction::RrcR8(r) => Some(seq![0xcbu8, 0x08u8 | spec_r8_code(r)]),
        Instruction::RstTgt3(t) => if t < 8 {
            Some(seq![0xc7u8 | (t << 3)])
        } else {
            None
        },
        Instruction::SbcAR8(r) => Some(seq![0x98u8 | spec_r8_code(r)]),
        Instruction::SbcAImm8 => Some(seq![0xdeu8]),
        Instruction::Scf => Some(seq![0x37u8]),
        Instruction::SetB3R8(b3, r) => if b3 < 8 {
            Some(seq![0xcbu8, 0xc0u8 | (b3 << 3) | spec_r8_code(r)])
        } else {
            None
        },
        Instruction::SlaR8(r) => Some(seq![0xcbu8, 0x20u8 | spec_r8_code(r)]),
        Instruction::SraR8(r) => Some(seq![0xcbu8, 0x28u8 | spec_r8_code(r)]),
        Instruction::SrlR8(r) => Some(seq![0xcbu8, 0x38u8 | spec_r8_code(r)]),
        Instruction::Stop => Some(seq![0x10u8]),
        Instruction::SubAR8(r) => Some(seq![0x90u8 | spec_r8_code(r)]),
        Instruction::SubAImm8 => Some(seq![0xd6u8]),
        Instruction::SwapR8(r) => Some(seq![0xcbu8, 0x30u8 | spec_r8_code(r)]),
        Instruction::XorAR8(r) => Some(seq![0xa8u8 | spec_r8_code(r)]),
        Instruction::XorAImm8 => Some(seq![0xeeu8]),
    }
}

impl Instruction {
    /// How many operand bytes beyond the opcode byte the instruction's
    /// encoding consumes, so a caller can advance the program counter.
    pub fn extra_bytes(&self) -> (n: u8)
        ensures
            n == spec_extra_bytes(*self),
    {
        match self {
            Instruction::LdR16Imm16(_) => 2,
            Instruction::LdImm16SP => 2,
            Instruction::LdAImm16(_) => 2,
            Instruction::LdImm16A(_) => 2,
            Instruction::CallCondImm16(_, _) => 2,
            Instruction::CallImm16(_) => 2,
            Instruction::JpCondImm16(_, _) => 2,
            Instruction::JpImm16(_) => 2,
            Instruction::AdcAImm8 => 1,
            Instruction::AddAImm8 => 1,
            Instruction::AddSpImm8 => 1,
            Instruction::AndAImm8 => 1,
            Instruction::CpAImm8 => 1,
            Instruction::OrAImm8 => 1,
            Instruction::SbcAImm8 => 1,
            Instruction::SubAImm8 => 1,
            Instruction::XorAImm8 => 1,
            Instruction::JrImm8 => 1,
            Instruction::JrCondImm8(_) => 1,
            Instruction::LdR8Imm8(_) => 1,
            Instruction::LdHlSpImm8 => 1,
            Instruction::LdhAImm8(_) => 1,
            Instruction::LdhImm8A(_) => 1,
            Instruction::BitB3R8(_, _) => 1,
            Instruction::ResB3R8(_, _) => 1,
            Instruction::SetB3R8(_, _) => 1,
            Instruction::RlR8(_) => 1,
            Instruction::RlcR8(_) => 1,
            Instruction::RrR8(_) => 1,
            Instruction::RrcR8(_) => 1,
            Instruction::SlaR8(_) => 1,
            Instruction::SraR8(_) => 1,
            Instruction::SrlR8(_) => 1,
            Instruction::SwapR8(_) => 1,
            _ => 0,
        }
    }

    /// Encodes the instruction back to the byte sequence the decoder reads:
    /// the opcode byte or bytes plus the immediates the variant carries.
    /// Returns `None` only for the unencodable payloads.
    pub fn encode(&self) -> (r: Option<Vec<u8>>)
        ensures
            r is Some <==> spec_encode(*self) is Some,
            r is Some ==> r->0@ == spec_encode(*self)->0,
    {
        match self {
            Instruction::AdcAR8(r) => Some(bytes1(0x88 | r8_code(*r))),
            Instruction::AdcAImm8 => Some(bytes1(0xce)),
            Instruction::AddAR8(r) => Some(bytes1(0x80 | r8_code(*r))),
            Instruction::AddHlR16(r) => Some(bytes1(0x09 | (r16_code(*r) << 4))),
            Instruction::AddAImm8 => Some(bytes1(0xc6)),
            Instruction::AddSpImm8 => Some(bytes1(0xe8)),
            Instruction::AndAR8(r) => Some(bytes1(0xa0 | r8_code(*r))),
            Instruction::AndAImm8 => Some(bytes1(0xe6)),
            Instruction::BitB3R8(b3, r) => if *b3 < 8 {
                Some(bytes2(0xcb, 0x40 | (*b3 << 3) | r8_code(*r)))
            } else {
                None
            },
            Instruction::CallCondImm16(c, imm) => Some(
                bytes3(
                    match c {
                        OpCond::NZ => 0xc4,
                        OpCond::Z => 0xcc,
                        OpCond::NC => 0xd4,
                        OpCond::C => 0xdc,
                    },
                    (*imm & 0x00ff) as u8,
                    (*imm >> 8) as u8,
                ),
            ),
            Instruction::CallImm16(imm) => Some(
                bytes3(0xcd, (*imm & 0x00ff) as u8, (*imm >> 8) as u8),
            ),
            Instruction::Ccf => Some(bytes1(0x3f)),
            Instruction::CpAR8(r) => Some(bytes1(0xb8 | r8_code(*r))),
            Instruction::CpAImm8 => Some(bytes1(0xfe)),
            Instruction::Cpl => Some(bytes1(0x2f)),
            Instruction::Daa => Some(bytes1(0x27)),
            Instruction::DecR16(r) => Some(bytes1(0x0b | (r16_code(*r) << 4))),
            Instruction::DecR8(r) => Some(bytes1(0x05 | (r8_code(*r) << 3))),
            Instruction::Di => Some(bytes1(0xf3)),
            Instruction::Ei => Some(bytes1(0xfb)),
            Instruction::Halt => Some(bytes1(0x76)),
            Instruction::IncR16(r) => Some(bytes1(0x03 | (r16_code(*r) << 4))),
            Instruction::IncR8(r) => Some(bytes1(0x04 | (r8_code(*r) << 3))),
            Instruction::JrImm8 => Some(bytes1(0x18)),
            Instruction::JrCondImm8(c) => Some(
                bytes1(
                    match c {
                        OpCond::NZ => 0x20,
                        OpCond::Z => 0x28,
                        OpCond::NC => 0x30,
                        OpCond::C => 0x38,
                    },
                ),
            ),
            Instruction::JpCondImm16(c, imm) => Some(
                bytes3(
                    match c {
                        OpCond::NZ => 0xc2,
                        OpCond::Z => 0xca,
                        OpCond::NC => 0xd2,
                        OpCond::C => 0xda,
                    },
                    (*imm & 0x00ff) as u8,
                    (*imm >> 8) as u8,
                ),
            ),
            Instruction::JpImm16(imm) => Some(
                bytes3(0xc3, (*imm & 0x00ff) as u8, (*imm >> 8) as u8),
            ),
            Instruction::JpHl => Some(bytes1(0xe9)),
            Instruction::LdR16Imm16(r) => Some(bytes1(0x01 | (r16_code(*r) << 4))),
            Instruction::LdR16MemA(m) => Some(bytes1(0x02 | (r16_mem_code(*m) << 4))),
            Instruction::LdAR16Mem(m) => Some(bytes1(0x0a | (r16_mem_code(*m) << 4))),
            Instruction::LdAImm16(imm) => Some(
                bytes3(0xfa, (*imm & 0x00ff) as u8, (*imm >> 8) as u8),
            ),
            Instruction::LdImm16A(imm) => Some(
                bytes3(0xea, (*imm & 0x00ff) as u8, (*imm >> 8) as u8),
            ),
            Instruction::LdImm16SP => Some(bytes1(0x08)),
            Instruction::LdHlSpImm8 => Some(bytes1(0xf8)),
            Instruction::LdSpHl => Some(bytes1(0xf9)),
            Instruction::LdR8R8(d, s) => {
                match (*d, *s) {
                    (OpR8::HL, OpR8::HL) => None,
                    _ => Some(bytes1(0x40 | (r8_code(*d) << 3) | r8_code(*s))),
                }
            },
            Instruction::LdR8Imm8(r) => Some(bytes1(0x06 | (r8_code(*r) << 3))),
            Instruction::LdhAImm8(n) => Some(bytes2(0xf0, *n)),
            Instruction::LdhImm8A(n) => Some(bytes2(0xe0, *n)),
            Instruction::LdhCA => Some(bytes1(0xe2)),
            Instruction::LdhAC => Some(bytes1(0xf2)),
            Instruction::Nop => Some(bytes1(0x00)),
            Instruction::OrAR8(r) => Some(bytes1(0xb0 | r8_code(*r))),
            Instruction::OrAImm8 => Some(bytes1(0xf6)),
            Instruction::Pop(p) => Some(
                bytes1(
                    match p {
                        OpR16Stk::BC => 0xc1,
                        OpR16Stk::DE => 0xd1,
                        OpR16Stk::HL => 0xe1,
                        OpR16Stk::AF => 0xf1,
                    },
                ),
            ),
            Instruction::Push(p) => Some(
                bytes1(
                    match p {
                        OpR16Stk::BC => 0xc5,
                        OpR16Stk::DE => 0xd5,
                        OpR16Stk::HL => 0xe5,
                        OpR16Stk::AF => 0xf5,
                    },
                ),
            ),
            Instruction::ResB3R8(b3, r) => if *b3 < 8 {
                Some(bytes2(0xcb, 0x80 | (*b3 << 3) | r8_code(*r)))
            } else {
                None
            },
            Instruction::RetCond(c) => Some(
                bytes1(
                    match c {
                        OpCond::NZ => 0xc0,
                        OpCond::Z => 0xc8,
                        OpCond::NC => 0xd0,
                        OpCond::C => 0xd8,
                    },
                ),
            ),
            Instruction::Ret => Some(bytes1(0xc9)),
            Instruction::Reti => Some(bytes1(0xd9)),
            Instruction::RlR8(r) => Some(bytes2(0xcb, 0x10 | r8_code(*r))),
            Instruction::Rla => Some(bytes1(0x17)),
            Instruction::RlcR8(r) => Some(bytes2(0xcb, r8_code(*r))),
            Instruction::Rlca => Some(bytes1(0x07)),
            Instruction::RrR8(r) => Some(bytes2(0xcb, 0x18 | r8_code(*r))),
            Instruction::Rra => Some(bytes1(0x1f)),
            Instruction::Rrca => Some(bytes1(0x0f)),
            Instruction::RrcR8(r) => Some(bytes2(0xcb, 0x08 | r8_code(*r))),
            Instruction::RstTgt3(t) => if *t < 8 {
                Some(bytes1(0xc7 | (*t << 3)))
            } else {
                None
            },
            Instruction::SbcAR8(r) => Some(bytes1(0x98 | r8_code(*r))),
            Instruction::SbcAImm8 => Some(bytes1(0xde)),
            Instruction::Scf => Some(bytes1(0x37)),
            Instruction::SetB3R8(b3, r) => if *b3 < 8 {
                Some(bytes2(0xcb, 0xc0 | (*b3 << 3) | r8_code(*r)))
            } else {
                None
            },
            Instruction::SlaR8(r) => Some(bytes2(0xcb, 0x20 | r8_code(*r))),
            Instruction::SraR8(r) => Some(bytes2(0xcb, 0x28 | r8_code(*r))),
            Instruction::SrlR8(r) => Some(bytes2(0xcb, 0x38 | r8_code(*r))),
            Instruction::Stop => Some(bytes1(0x10)),
            Instruction::SubAR8(r) => Some(bytes1(0x90 | r8_code(*r))),
            Instruction::SubAImm8 => Some(bytes1(0xd6)),
            Instruction::SwapR8(r) => Some(bytes2(0xcb, 0x30 | r8_code(*r))),
            Instruction::XorAR8(r) => Some(bytes1(0xa8 | r8_code(*r))),
            Instruction::XorAImm8 => Some(bytes1(0xee)),
        }
    }
}

/// The 2-bit field value that encodes an R16 operand.
fn r16_code(r: OpR16) -> (v: u8)
    ensures
        v == spec_r16_code(r),
{
    match r {
        OpR16::BC => 0,
        OpR16::DE => 1,
        OpR16::HL => 2,
        OpR16::SP => 3,
    }
}

/// The 2-bit field value that encodes an R16Mem operand.
fn r16_mem_code(m: OpR16Mem) -> (v: u8)
    ensures
        v == spec_r16_mem_code(m),
{
    match m {
        OpR16Mem::BC => 0,
        OpR16Mem::DE => 1,
        OpR16Mem::HLPlus => 2,
        OpR16Mem::HLMinus => 3,
    }
}

/// The 3-bit field value that encodes an R8 operand.
fn r8_code(r: OpR8) -> (v: u8)
    ensures
        v == spec_r8_code(r),
{
    match r {
        OpR8::B => 0,
        OpR8::C => 1,
        OpR8::D => 2,
        OpR8::E => 3,
        OpR8::H => 4,
        OpR8::L => 5,
        OpR8::HL => 6,
        OpR8::A => 7,
    }
}

fn bytes1(b0: u8) -> (v: Vec<u8>)
    ensures
        v@ == seq![b0],
{
    let mut v: Vec<u8> = Vec::new();
    v.push(b0);
    proof {
        assert(v@ =~= seq![b0]);
    }
    v
}

fn bytes2(b0: u8, b1: u8) -> (v: Vec<u8>)
    ensures
        v@ == seq![b0, b1],
{
    let mut v: Vec<u8> = Vec::new();
    v.push(b0);
    v.push(b1);
    proof {
        assert(v@ =~= seq![b0, b1]);
    }
    v
}

fn bytes3(b0: u8, b1: u8, b2: u8) -> (v: Vec<u8>)
    ensures
        v@ == seq![b0, b1, b2],
{
    let mut v: Vec<u8> = Vec::new();
    v.push(b0);
    v.push(b1);
    v.push(b2);
    proof {
        assert(v@ =~= seq![b0, b1, b2]);
    }
    v
}

} // verus!
