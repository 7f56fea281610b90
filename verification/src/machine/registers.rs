//! The SM83 register file: six 16-bit registers, with the 8-bit registers and
//! the four flags derived as shift/mask views of AF, BC, DE and HL.
//!
//! Invariants kept by every write: storing an 8-bit half of a pair never
//! disturbs the sibling half, and any write that touches the flag byte (the
//! low byte of AF) forces its low nibble to zero.

use vstd::prelude::*;

verus! {

/// An 8-bit register: a derived view of the high or low byte of a pair.
#[derive(Clone, Copy, Debug, PartialEq, Eq, Structural)]
pub enum Register8 {
    A,
    B,
    C,
    D,
    E,
    H,
    L,
}

/// A 16-bit register.
#[derive(Clone, Copy, Debug, PartialEq, Eq, Structural)]
pub enum Register16 {
    AF,
    BC,
    DE,
    HL,
    SP,
    PC,
}

/// A flag bit of the flag register F (the low byte of AF).
#[derive(Clone, Copy, Debug, PartialEq, Eq, Structural)]
pub enum Flag {
    Zero,
    Subtraction,
    HalfCarry,
    Carry,
}

/// The bit of F that carries the flag: Zero/Subtraction/HalfCarry/Carry sit in
/// bits 7/6/5/4 of the low byte of AF.
pub open spec fn flag_mask(f: Flag) -> u16 {
    match f {
        Flag::Zero => 0x0080,
        Flag::Subtraction => 0x0040,
        Flag::HalfCarry => 0x0020,
        Flag::Carry => 0x0010,
    }
}

/// `v + 1` wrapping modulo 2^16.
pub open spec fn wrap_inc16(v: u16) -> u16 {
    if v == 0xffff {
        0
    } else {
        (v + 1) as u16
    }
}

/// `v - 1` wrapping modulo 2^16.
pub open spec fn wrap_dec16(v: u16) -> u16 {
    if v == 0 {
        0xffff
    } else {
        (v - 1) as u16
    }
}

/// The six 16-bit registers. The 8-bit registers A,B,C,D,E,H,L are views of
/// the high/low bytes of AF, BC, DE, HL; they are not independent storage.
#[derive(Clone, Copy, Debug, PartialEq, Eq, Structural)]
pub struct RegisterState {
    pub af: u16,
    pub bc: u16,
    pub de: u16,
    pub hl: u16,
    pub sp: u16,
    pub pc: u16,
}

impl RegisterState {
    /// Well-formedness: the low nibble of the flag byte is zero. Established
    /// at power-on and maintained by every register write.
    pub open spec fn wf(self) -> bool {
        self.af & 0x000f == 0
    }

    pub open spec fn spec_get_u16(self, r: Register16) -> u16 {
        match r {
            Register16::AF => self.af,
            Register16::BC => self.bc,
            Register16::DE => self.de,
            Register16::HL => self.hl,
            Register16::SP => self.sp,
            Register16::PC => self.pc,
        }
    }

    /// The register file after a 16-bit write: the named register holds `v`
    /// (AF with its low nibble forced to zero), every other register is kept.
    pub open spec fn spec_set_u16(self, r: Register16, v: u16) -> RegisterState {
        match r {
            Register16::AF => RegisterState { af: v & 0xfff0, ..self },
            Register16::BC => RegisterState { bc: v, ..self },
            Register16::DE => RegisterState { de: v, ..self },
            Register16::HL => RegisterState { hl: v, ..self },
            Register16::SP => RegisterState { sp: v, ..self },
            Register16::PC => RegisterState { pc: v, ..self },
        }
    }

    pub open spec fn spec_get_u8(self, r: Register8) -> u8 {
        match r {
            Register8::A => (self.af >> 8) as u8,
            Register8::B => (self.bc >> 8) as u8,
            Register8::C => (self.bc & 0x00ff) as u8,
            Register8::D => (self.de >> 8) as u8,
            Register8::E => (self.de & 0x00ff) as u8,
            Register8::H => (self.hl >> 8) as u8,
            Register8::L => (self.hl & 0x00ff) as u8,
        }
    }

    /// The register file after an 8-bit write: only the corresponding byte of
    /// the owning pair is replaced.
    pub open spec fn spec_set_u8(self, r: Register8, v: u8) -> RegisterState {
        match r {
            Register8::A => RegisterState { af: set_high_byte(self.af, v), ..self },
            Register8::B => RegisterState { bc: set_high_byte(self.bc, v), ..self },
            Register8::C => RegisterState { bc: set_low_byte(self.bc, v), ..self },
            Register8::D => RegisterState { de: set_high_byte(self.de, v), ..self },
            Register8::E => RegisterState { de: set_low_byte(self.de, v), ..self },
            Register8::H => RegisterState { hl: set_high_byte(self.hl, v), ..self },
            Register8::L => RegisterState { hl: set_low_byte(self.hl, v), ..self },
        }
    }

    pub open spec fn spec_get_flag(self, f: Flag) -> bool {
        self.af & flag_mask(f) != 0
    }

    /// The register file after a flag write: only the flag's bit of F changes,
    /// and the low nibble of F is forced to zero.
    pub open spec fn spec_set_flag(self, f: Flag, value: bool) -> RegisterState {
        if value {
            RegisterState { af: (self.af | flag_mask(f)) & 0xfff0, ..self }
        } else {
            RegisterState { af: (self.af & !flag_mask(f)) & 0xfff0, ..self }
        }
    }

    /// Power-on state: every register zero.
    pub fn new() -> (r: RegisterState)
        ensures
            r == (RegisterState { af: 0, bc: 0, de: 0, hl: 0, sp: 0, pc: 0 }),
    {
        RegisterState { af: 0, bc: 0, de: 0, hl: 0, sp: 0, pc: 0 }
    }

    pub fn get_u16(&self, r: Register16) -> (v: u16)
        ensures
            v == self.spec_get_u16(r),
    {
        match r {
            Register16::AF => self.af,
            Register16::BC => self.bc,
            Register16::DE => self.de,
            Register16::HL => self.hl,
            Register16::SP => self.sp,
            Register16::PC => self.pc,
        }
    }

    pub fn set_u16(&mut self, r: Register16, v: u16)
        ensures
            *final(self) == old(self).spec_set_u16(r, v),
    {
        match r {
            Register16::AF => self.af = v & 0xfff0,
            Register16::BC => self.bc = v,
            Register16::DE => self.de = v,
            Register16::HL => self.hl = v,
            Register16::SP => self.sp = v,
            Register16::PC => self.pc = v,
        }
    }

    pub fn get_u8(&self, r: Register8) -> (v: u8)
        ensures
            v == self.spec_get_u8(r),
    {
        match r {
            Register8::A => (self.af >> 8) as u8,
            Register8::B => (self.bc >> 8) as u8,
            Register8::C => (self.bc & 0x00ff) as u8,
            Register8::D => (self.de >> 8) as u8,
            Register8::E => (self.de & 0x00ff) as u8,
            Register8::H => (self.hl >> 8) as u8,
            Register8::L => (self.hl & 0x00ff) as u8,
        }
    }

    pub fn set_u8(&mut self, r: Register8, v: u8)
        ensures
            *final(self) == old(self).spec_set_u8(r, v),
    {
        match r {
            Register8::A => self.af = (self.af & 0x00ff) | ((v as u16) << 8),
            Register8::B => self.bc = (self.bc & 0x00ff) | ((v as u16) << 8),
            Register8::C => self.bc = (self.bc & 0xff00) | (v as u16),
            Register8::D => self.de = (self.de & 0x00ff) | ((v as u16) << 8),
            Register8::E => self.de = (self.de & 0xff00) | (v as u16),
            Register8::H => self.hl = (self.hl & 0x00ff) | ((v as u16) << 8),
            Register8::L => self.hl = (self.hl & 0xff00) | (v as u16),
        }
    }

    pub fn get_flag(&self, f: Flag) -> (v: bool)
        ensures
            v == self.spec_get_flag(f),
    {
        match f {
            Flag::Zero => self.af & 0x0080 != 0,
            Flag::Subtraction => self.af & 0x0040 != 0,
            Flag::HalfCarry => self.af & 0x0020 != 0,
            Flag::Carry => self.af & 0x0010 != 0,
        }
    }

    pub fn set_flag(&mut self, f: Flag, value: bool)
        ensures
            *final(self) == old(self).spec_set_flag(f, value),
    {
        let mask: u16 = match f {
            Flag::Zero => 0x0080,
            Flag::Subtraction => 0x0040,
            Flag::HalfCarry => 0x0020,
            Flag::Carry => 0x0010,
        };
        if value {
            self.af = (self.af | mask) & 0xfff0;
        } else {
            self.af = (self.af & !mask) & 0xfff0;
        }
    }

    /// Adds 1 to a 16-bit register, wrapping modulo 2^16.
    pub fn inc_u16(&mut self, r: Register16)
        ensures
            *final(self) == old(self).spec_set_u16(r, wrap_inc16(old(self).spec_get_u16(r))),
    {
        let v = self.get_u16(r);
        let nv: u16 = if v == 0xffff { 0 } else { v + 1 };
        self.set_u16(r, nv);
    }

    /// Subtracts 1 from a 16-bit register, wrapping modulo 2^16.
    pub fn dec_u16(&mut self, r: Register16)
        ensures
            *final(self) == old(self).spec_set_u16(r, wrap_dec16(old(self).spec_get_u16(r))),
    {
        let v = self.get_u16(r);
        let nv: u16 = if v == 0 { 0xffff } else { v - 1 };
        self.set_u16(r, nv);
    }
}

/// `pair` with its high byte replaced by `v`; the low byte is untouched.
pub open spec fn set_high_byte(pair: u16, v: u8) -> u16 {
    (pair & 0x00ff) | ((v as u16) << 8)
}

/// `pair` with its low byte replaced by `v`; the high byte is untouched.
pub open spec fn set_low_byte(pair: u16, v: u8) -> u16 {
    (pair & 0xff00) | (v as u16)
}

proof fn lemma_high_byte(pair: u16, v: u8)
    by (bit_vector)
    ensures
        ((((pair & 0x00ff) | ((v as u16) << 8)) >> 8) as u8) == v,
        ((pair & 0x00ff) | ((v as u16) << 8)) & 0x00ff == pair & 0x00ff,
        ((pair & 0x00ff) | ((v as u16) << 8)) & 0x000f == pair & 0x000f,
{
}

proof fn lemma_low_byte(pair: u16, v: u8)
    by (bit_vector)
    ensures
        ((((pair & 0xff00) | (v as u16)) & 0x00ff) as u8) == v,
        ((pair & 0xff00) | (v as u16)) >> 8 == pair >> 8,
{
}

/// Law: an 8-bit register write stores exactly the written byte, leaves every
/// other 8-bit register unchanged, leaves SP and PC unchanged, and keeps the
/// low nibble of the flag byte zero.
pub proof fn lemma_set_u8_frame(rs: RegisterState, r: Register8, v: u8, other: Register8)
    ensures
        rs.spec_set_u8(r, v).spec_get_u8(r) == v,
        other != r ==> rs.spec_set_u8(r, v).spec_get_u8(other) == rs.spec_get_u8(other),
        rs.spec_set_u8(r, v).sp == rs.sp,
        rs.spec_set_u8(r, v).pc == rs.pc,
        rs.wf() ==> rs.spec_set_u8(r, v).wf(),
{
    match r {
        Register8::A => lemma_high_byte(rs.af, v),
        Register8::B => lemma_high_byte(rs.bc, v),
        Register8::C => lemma_low_byte(rs.bc, v),
        Register8::D => lemma_high_byte(rs.de, v),
        Register8::E => lemma_low_byte(rs.de, v),
        Register8::H => lemma_high_byte(rs.hl, v),
        Register8::L => lemma_low_byte(rs.hl, v),
    }
    assert(rs.wf() ==> rs.spec_set_u8(r, v).wf()) by {
        if rs.wf() {
            match r {
                Register8::A => {
                    let a = rs.af;
                    assert(a & 0x000f == 0 ==> set_high_byte(a, v) & 0x000f == 0) by (bit_vector);
                },
                _ => {},
            }
        }
    }
}

/// Law: a flag write sets exactly the written flag, leaves the other flags
/// unchanged, leaves A and every other register unchanged, and keeps the low
/// nibble of the flag byte zero.
pub proof fn lemma_set_flag_frame(rs: RegisterState, f: Flag, value: bool, other: Flag)
    ensures
        rs.spec_set_flag(f, value).spec_get_flag(f) == value,
        other != f ==> rs.spec_set_flag(f, value).spec_get_flag(other) == rs.spec_get_flag(
            other,
        ),
        rs.spec_set_flag(f, value).spec_get_u8(Register8::A) == rs.spec_get_u8(Register8::A),
        rs.spec_set_flag(f, value).wf(),
        rs.spec_set_flag(f, value).bc == rs.bc,
        rs.spec_set_flag(f, value).de == rs.de,
        rs.spec_set_flag(f, value).hl == rs.hl,
        rs.spec_set_flag(f, value).sp == rs.sp,
        rs.spec_set_flag(f, value).pc == rs.pc,
{
    let m = flag_mask(f);
    let m2 = flag_mask(other);
    assert((m == 0x0080 || m == 0x0040 || m == 0x0020 || m == 0x0010) && (m2 == 0x0080 || m2
        == 0x0040 || m2 == 0x0020 || m2 == 0x0010)) by {
        match f {
            Flag::Zero => {},
            Flag::Subtraction => {},
            Flag::HalfCarry => {},
            Flag::Carry => {},
        }
    }
    assert(other != f ==> m != m2) by {
        if other != f {
            match f {
                Flag::Zero => {},
                Flag::Subtraction => {},
                Flag::HalfCarry => {},
                Flag::Carry => {},
            }
        }
    }
    lemma_flag_write_bits(rs.af, m, m2);
}

proof fn lemma_flag_write_bits(x: u16, m: u16, m2: u16)
    by (bit_vector)
    requires
        m == 0x0080 || m == 0x0040 || m == 0x0020 || m == 0x0010,
        m2 == 0x0080 || m2 == 0x0040 || m2 == 0x0020 || m2 == 0x0010,
    ensures
        ((x | m) & 0xfff0) & m != 0,
        ((x & !m) & 0xfff0) & m == 0,
        m2 != m ==> (((x | m) & 0xfff0) & m2 != 0) == (x & m2 != 0),
        m2 != m ==> (((x & !m) & 0xfff0) & m2 != 0) == (x & m2 != 0),
        ((x | m) & 0xfff0) & 0x000f == 0,
        ((x & !m) & 0xfff0) & 0x000f == 0,
        (((x | m) & 0xfff0) >> 8) as u8 == (x >> 8) as u8,
        (((x & !m) & 0xfff0) >> 8) as u8 == (x >> 8) as u8,
{
}

/// Law: a 16-bit register write stores exactly the written value (AF with its
/// low nibble forced to zero) and leaves every other register unchanged.
pub proof fn lemma_set_u16_frame(rs: RegisterState, r: Register16, v: u16, other: Register16)
    ensures
        r != Register16::AF ==> rs.spec_set_u16(r, v).spec_get_u16(r) == v,
        r == Register16::AF ==> rs.spec_set_u16(r, v).spec_get_u16(r) == v & 0xfff0,
        other != r ==> rs.spec_set_u16(r, v).spec_get_u16(other) == rs.spec_get_u16(other),
        rs.wf() ==> rs.spec_set_u16(r, v).wf(),
{
    assert((v & 0xfff0) & 0x000f == 0) by (bit_vector);
}

} // verus!
