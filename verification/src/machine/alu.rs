//! The 8-bit ALU and the 16-bit `add hl` of the executor: result and flag
//! semantics, stated over the register-file model and proved of the
//! executable operations.
//!
//! Flag rules: add/adc/sub/sbc/cp set Zero from the result, Subtraction per
//! the operation, HalfCarry from the carry/borrow out of bit 3, Carry from
//! bit 7; and/or/xor force HalfCarry and Carry per the operation; `add hl`
//! takes HalfCarry from bit 11 and Carry from bit 15, leaving Zero alone.

use super::instructions::Instruction;
use super::registers::{Flag, Register16, Register8, RegisterState};
use vstd::prelude::*;

verus! {

/// The carry flag as an arithmetic carry-in: 1 when set, else 0.
pub open spec fn spec_carry_in(rs: RegisterState) -> u8 {
    if rs.spec_get_flag(Flag::Carry) {
        1
    } else {
        0
    }
}

/// `a + v + cin` truncated to a byte.
pub open spec fn spec_add_result(a: u8, v: u8, cin: u8) -> u8 {
    ((a + v + cin) % 0x100) as u8
}

/// Carry out of bit 3 of `a + v + cin`.
pub open spec fn spec_add_half_carry(a: u8, v: u8, cin: u8) -> bool {
    (a & 0x0f) + (v & 0x0f) + cin > 0x0f
}

/// Carry out of bit 7 of `a + v + cin`.
pub open spec fn spec_add_carry(a: u8, v: u8, cin: u8) -> bool {
    a + v + cin > 0xff
}

/// `a - v - cin` truncated to a byte (two's-complement wrap).
pub open spec fn spec_sub_result(a: u8, v: u8, cin: u8) -> u8 {
    ((a + 0x100 - v - cin) % 0x100) as u8
}

/// Borrow into bit 4 of `a - v - cin`.
pub open spec fn spec_sub_half_borrow(a: u8, v: u8, cin: u8) -> bool {
    (a & 0x0f) < (v & 0x0f) + cin
}

/// Borrow out of bit 7 of `a - v - cin`.
pub open spec fn spec_sub_borrow(a: u8, v: u8, cin: u8) -> bool {
    a < v + cin
}

/// The register file after an ALU write: A holds `a`, and the four flags are
/// rewritten to the given values (which zeroes the low nibble of F).
pub open spec fn spec_with_a_and_flags(
    rs: RegisterState,
    a: u8,
    z: bool,
    n: bool,
    h: bool,
    c: bool,
) -> RegisterState {
    rs.spec_set_u8(Register8::A, a).spec_set_flag(Flag::Zero, z).spec_set_flag(
        Flag::Subtraction,
        n,
    ).spec_set_flag(Flag::HalfCarry, h).spec_set_flag(Flag::Carry, c)
}

/// The register file after one 8-bit ALU instruction (register or immediate
/// operand), given the operand value `v` already fetched. Instructions outside
/// the ALU group leave it unchanged.
pub open spec fn spec_alu_regs(rs: RegisterState, inst: Instruction, v: u8) -> RegisterState {
    let a = rs.spec_get_u8(Register8::A);
    let cin = spec_carry_in(rs);
    match inst {
        Instruction::AddAR8(_) | Instruction::AddAImm8 => {
            let r = spec_add_result(a, v, 0);
            spec_with_a_and_flags(
                rs,
                r,
                r == 0,
                false,
                spec_add_half_carry(a, v, 0),
                spec_add_carry(a, v, 0),
            )
        },
        Instruction::AdcAR8(_) | Instruction::AdcAImm8 => {
            let r = spec_add_result(a, v, cin);
            spec_with_a_and_flags(
                rs,
                r,
                r == 0,
                false,
                spec_add_half_carry(a, v, cin),
                spec_add_carry(a, v, cin),
            )
        },
        Instruction::SubAR8(_) | Instruction::SubAImm8 => {
            let r = spec_sub_result(a, v, 0);
            spec_with_a_and_flags(
                rs,
                r,
                r == 0,
                true,
                spec_sub_half_borrow(a, v, 0),
                spec_sub_borrow(a, v, 0),
            )
        },
        Instruction::SbcAR8(_) | Instruction::SbcAImm8 => {
            let r = spec_sub_result(a, v, cin);
            spec_with_a_and_flags(
                rs,
                r,
                r == 0,
                true,
                spec_sub_half_borrow(a, v, cin),
                spec_sub_borrow(a, v, cin),
            )
        },
        Instruction::AndAR8(_) | Instruction::AndAImm8 => {
            let r = a & v;
            spec_with_a_and_flags(rs, r, r == 0, false, true, false)
        },
        Instruction::XorAR8(_) | Instruction::XorAImm8 => {
            let r = a ^ v;
            spec_with_a_and_flags(rs, r, r == 0, false, false, false)
        },
        Instruction::OrAR8(_) | Instruction::OrAImm8 => {
            let r = a | v;
            spec_with_a_and_flags(rs, r, r == 0, false, false, false)
        },
        Instruction::CpAR8(_) | Instruction::CpAImm8 => {
            // cp computes the subtraction for its flags only; A keeps its value
            spec_with_a_and_flags(
                rs,
                a,
                spec_sub_result(a, v, 0) == 0,
                true,
                spec_sub_half_borrow(a, v, 0),
                spec_sub_borrow(a, v, 0),
            )
        },
        _ => rs,
    }
}

/// The register file after `add hl, v`: HL wraps modulo 2^16, HalfCarry is
/// the carry out of bit 11, Carry the carry out of bit 15; Zero and
/// Subtraction are unaffected.
pub open spec fn spec_add_hl_regs(rs: RegisterState, v: u16) -> RegisterState {
    let hl = rs.hl;
    rs.spec_set_flag(Flag::HalfCarry, (hl & 0x0fff) + (v & 0x0fff) > 0x0fff).spec_set_flag(
        Flag::Carry,
        hl + v > 0xffff,
    ).spec_set_u16(Register16::HL, ((hl + v) % 0x10000) as u16)
}

/// Applies one 8-bit ALU instruction to the register file, the operand value
/// `v` already fetched; a non-ALU instruction changes nothing.
pub fn alu_apply(rs: &mut RegisterState, inst: &Instruction, v: u8)
    ensures
        *final(rs) == spec_alu_regs(*old(rs), *inst, v),
{
    match inst {
        Instruction::AddAR8(_) | Instruction::AddAImm8 => {
            let a = rs.get_u8(Register8::A);
            let sum: u16 = a as u16 + v as u16;
            let r: u8 = (sum % 0x100) as u8;
            rs.set_u8(Register8::A, r);
            rs.set_flag(Flag::Zero, r == 0);
            rs.set_flag(Flag::Subtraction, false);
            rs.set_flag(Flag::HalfCarry, (a & 0x0f) as u16 + (v & 0x0f) as u16 > 0x0f);
            rs.set_flag(Flag::Carry, sum > 0xff);
        },
        Instruction::AdcAR8(_) | Instruction::AdcAImm8 => {
            let a = rs.get_u8(Register8::A);
            let cin: u8 = if rs.get_flag(Flag::Carry) {
                1
            } else {
                0
            };
            let sum: u16 = a as u16 + v as u16 + cin as u16;
            let r: u8 = (sum % 0x100) as u8;
            rs.set_u8(Register8::A, r);
            rs.set_flag(Flag::Zero, r == 0);
            rs.set_flag(Flag::Subtraction, false);
            rs.set_flag(
                Flag::HalfCarry,
                (a & 0x0f) as u16 + (v & 0x0f) as u16 + cin as u16 > 0x0f,
            );
            rs.set_flag(Flag::Carry, sum > 0xff);
        },
        Instruction::SubAR8(_) | Instruction::SubAImm8 => {
            let a = rs.get_u8(Register8::A);
            let diff: u16 = a as u16 + 0x100 - v as u16;
            let r: u8 = (diff % 0x100) as u8;
            rs.set_u8(Register8::A, r);
            rs.set_flag(Flag::Zero, r == 0);
            rs.set_flag(Flag::Subtraction, true);
            rs.set_flag(Flag::HalfCarry, ((a & 0x0f) as u16) < (v & 0x0f) as u16);
            rs.set_flag(Flag::Carry, (a as u16) < v as u16);
        },
        Instruction::SbcAR8(_) | Instruction::SbcAImm8 => {
            let a = rs.get_u8(Register8::A);
            let cin: u8 = if rs.get_flag(Flag::Carry) {
                1
            } else {
                0
            };
            let diff: u16 = a as u16 + 0x100 - v as u16 - cin as u16;
            let r: u8 = (diff % 0x100) as u8;
            rs.set_u8(Register8::A, r);
            rs.set_flag(Flag::Zero, r == 0);
            rs.set_flag(Flag::Subtraction, true);
            rs.set_flag(
                Flag::HalfCarry,
                ((a & 0x0f) as u16) < (v & 0x0f) as u16 + cin as u16,
            );
            rs.set_flag(Flag::Carry, (a as u16) < v as u16 + cin as u16);
        },
        Instruction::AndAR8(_) | Instruction::AndAImm8 => {
            let a = rs.get_u8(Register8::A);
            let r: u8 = a & v;
            rs.set_u8(Register8::A, r);
            rs.set_flag(Flag::Zero, r == 0);
            rs.set_flag(Flag::Subtraction, false);
            rs.set_flag(Flag::HalfCarry, true);
            rs.set_flag(Flag::Carry, false);
        },
        Instruction::XorAR8(_) | Instruction::XorAImm8 => {
            let a = rs.get_u8(Register8::A);
            let r: u8 = a ^ v;
            rs.set_u8(Register8::A, r);
            rs.set_flag(Flag::Zero, r == 0);
            rs.set_flag(Flag::Subtraction, false);
            rs.set_flag(Flag::HalfCarry, false);
            rs.set_flag(Flag::Carry, false);
        },
        Instruction::OrAR8(_) | Instruction::OrAImm8 => {
            let a = rs.get_u8(Register8::A);
            let r: u8 = a | v;
            rs.set_u8(Register8::A, r);
            rs.set_flag(Flag::Zero, r == 0);
            rs.set_flag(Flag::Subtraction, false);
            rs.set_flag(Flag::HalfCarry, false);
            rs.set_flag(Flag::Carry, false);
        },
        Instruction::CpAR8(_) | Instruction::CpAImm8 => {
            let a = rs.get_u8(Register8::A);
            let diff: u16 = a as u16 + 0x100 - v as u16;
            let r: u8 = (diff % 0x100) as u8;
            rs.set_u8(Register8::A, a);
            rs.set_flag(Flag::Zero, r == 0);
            rs.set_flag(Flag::Subtraction, true);
            rs.set_flag(Flag::HalfCarry, ((a & 0x0f) as u16) < (v & 0x0f) as u16);
            rs.set_flag(Flag::Carry, (a as u16) < v as u16);
        },
        _ => {},
    }
}

/// Adds `v` into HL with the 16-bit flag rule.
pub fn add_hl(rs: &mut RegisterState, v: u16)
    ensures
        *final(rs) == spec_add_hl_regs(*old(rs), v),
{
    let hl = rs.get_u16(Register16::HL);
    let sum: u32 = hl as u32 + v as u32;
    let r: u16 = (sum % 0x10000) as u16;
    rs.set_flag(Flag::HalfCarry, (hl & 0x0fff) as u32 + (v & 0x0fff) as u32 > 0x0fff);
    rs.set_flag(Flag::Carry, sum > 0xffff);
    rs.set_u16(Register16::HL, r);
}

/// The decimal-adjusted accumulator: the BCD correction of the last
/// addition or subtraction, chosen by the Subtraction, HalfCarry and Carry
/// flags.
pub open spec fn spec_daa_a(a: u8, n: bool, h: bool, c: bool) -> u8 {
    if !n {
        let adj_low: u8 = if h || (a & 0x0f) > 9 {
            6
        } else {
            0
        };
        let adj_high: u8 = if c || a > 0x99 {
            0x60
        } else {
            0
        };
        ((a + adj_low + adj_high) % 0x100) as u8
    } else {
        let adj_low: u8 = if h {
            6
        } else {
            0
        };
        let adj_high: u8 = if c {
            0x60
        } else {
            0
        };
        ((a + 0x100 - adj_low - adj_high) % 0x100) as u8
    }
}

/// The carry flag after `daa`: kept, and additionally set by a high-digit
/// correction after an addition.
pub open spec fn spec_daa_carry(a: u8, n: bool, c: bool) -> bool {
    c || (!n && a > 0x99)
}

/// The register file after one of the single-byte accumulator instructions:
/// the rotates through and around the carry, `daa`, `cpl`, `scf` and `ccf`.
/// Other instructions leave it unchanged.
pub open spec fn spec_acc_regs(rs: RegisterState, inst: Instruction) -> RegisterState {
    let a = rs.spec_get_u8(Register8::A);
    let cin = spec_carry_in(rs);
    match inst {
        Instruction::Rlca => spec_with_a_and_flags(
            rs,
            (a << 1) | (a >> 7),
            false,
            false,
            false,
            a & 0x80 != 0,
        ),
        Instruction::Rrca => spec_with_a_and_flags(
            rs,
            (a >> 1) | (a << 7),
            false,
            false,
            false,
            a & 0x01 != 0,
        ),
        Instruction::Rla => spec_with_a_and_flags(
            rs,
            (a << 1) | cin,
            false,
            false,
            false,
            a & 0x80 != 0,
        ),
        Instruction::Rra => spec_with_a_and_flags(
            rs,
            (a >> 1) | (cin << 7),
            false,
            false,
            false,
            a & 0x01 != 0,
        ),
        Instruction::Daa => {
            let n = rs.spec_get_flag(Flag::Subtraction);
            let h = rs.spec_get_flag(Flag::HalfCarry);
            let c = rs.spec_get_flag(Flag::Carry);
            let res = spec_daa_a(a, n, h, c);
            rs.spec_set_u8(Register8::A, res).spec_set_flag(Flag::Zero, res == 0).spec_set_flag(
                Flag::HalfCarry,
                false,
            ).spec_set_flag(Flag::Carry, spec_daa_carry(a, n, c))
        },
        Instruction::Cpl => rs.spec_set_u8(Register8::A, a ^ 0xff).spec_set_flag(
            Flag::Subtraction,
            true,
        ).spec_set_flag(Flag::HalfCarry, true),
        Instruction::Scf => rs.spec_set_flag(Flag::Subtraction, false).spec_set_flag(
            Flag::HalfCarry,
            false,
        ).spec_set_flag(Flag::Carry, true),
        Instruction::Ccf => rs.spec_set_flag(Flag::Subtraction, false).spec_set_flag(
            Flag::HalfCarry,
            false,
        ).spec_set_flag(Flag::Carry, !rs.spec_get_flag(Flag::Carry)),
        _ => rs,
    }
}

/// Applies one single-byte accumulator instruction; any other instruction
/// changes nothing.
pub fn acc_apply(rs: &mut RegisterState, inst: &Instruction)
    ensures
        *final(rs) == spec_acc_regs(*old(rs), *inst),
{
    match inst {
        Instruction::Rlca => {
            let a = rs.get_u8(Register8::A);
            rs.set_u8(Register8::A, (a << 1) | (a >> 7));
            rs.set_flag(Flag::Zero, false);
            rs.set_flag(Flag::Subtraction, false);
            rs.set_flag(Flag::HalfCarry, false);
            rs.set_flag(Flag::Carry, a & 0x80 != 0);
        },
        Instruction::Rrca => {
            let a = rs.get_u8(Register8::A);
            rs.set_u8(Register8::A, (a >> 1) | (a << 7));
            rs.set_flag(Flag::Zero, false);
            rs.set_flag(Flag::Subtraction, false);
            rs.set_flag(Flag::HalfCarry, false);
            rs.set_flag(Flag::Carry, a & 0x01 != 0);
        },
        Instruction::Rla => {
            let a = rs.get_u8(Register8::A);
            let cin: u8 = if rs.get_flag(Flag::Carry) {
                1
            } else {
                0
            };
            rs.set_u8(Register8::A, (a << 1) | cin);
            rs.set_flag(Flag::Zero, false);
            rs.set_flag(Flag::Subtraction, false);
            rs.set_flag(Flag::HalfCarry, false);
            rs.set_flag(Flag::Carry, a & 0x80 != 0);
        },
        Instruction::Rra => {
            let a = rs.get_u8(Register8::A);
            let cin: u8 = if rs.get_flag(Flag::Carry) {
                1
            } else {
                0
            };
            rs.set_u8(Register8::A, (a >> 1) | (cin << 7));
            rs.set_flag(Flag::Zero, false);
            rs.set_flag(Flag::Subtraction, false);
            rs.set_flag(Flag::HalfCarry, false);
            rs.set_flag(Flag::Carry, a & 0x01 != 0);
        },
        Instruction::Daa => {
            let a = rs.get_u8(Register8::A);
            let n = rs.get_flag(Flag::Subtraction);
            let h = rs.get_flag(Flag::HalfCarry);
            let c = rs.get_flag(Flag::Carry);
            let res: u8 = if !n {
                let adj_low: u16 = if h || (a & 0x0f) > 9 {
                    6
                } else {
                    0
                };
                let adj_high: u16 = if c || a > 0x99 {
                    0x60
                } else {
                    0
                };
                ((a as u16 + adj_low + adj_high) % 0x100) as u8
            } else {
                let adj_low: u16 = if h {
                    6
                } else {
                    0
                };
                let adj_high: u16 = if c {
                    0x60
                } else {
                    0
                };
                ((a as u16 + 0x100 - adj_low - adj_high) % 0x100) as u8
            };
            rs.set_u8(Register8::A, res);
            rs.set_flag(Flag::Zero, res == 0);
            rs.set_flag(Flag::HalfCarry, false);
            rs.set_flag(Flag::Carry, c || (!n && a > 0x99));
        },
        Instruction::Cpl => {
            let a = rs.get_u8(Register8::A);
            rs.set_u8(Register8::A, a ^ 0xff);
            rs.set_flag(Flag::Subtraction, true);
            rs.set_flag(Flag::HalfCarry, true);
        },
        Instruction::Scf => {
            rs.set_flag(Flag::Subtraction, false);
            rs.set_flag(Flag::HalfCarry, false);
            rs.set_flag(Flag::Carry, true);
        },
        Instruction::Ccf => {
            let c = rs.get_flag(Flag::Carry);
            rs.set_flag(Flag::Subtraction, false);
            rs.set_flag(Flag::HalfCarry, false);
            rs.set_flag(Flag::Carry, !c);
        },
        _ => {},
    }
}

} // verus!
