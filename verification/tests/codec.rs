use sm83_core::machine::instructions::{
    DecodeFromU8, Instruction, OpR16, OpR16Mem, OpR16Stk, OpR8,
};
use sm83_core::machine::registers::Register16;
use sm83_core::machine::{decode_opcode, DecodeError, Machine};

#[test]
fn r8_field_decodes_in_canonical_order() {
    let expected = [
        OpR8::B,
        OpR8::C,
        OpR8::D,
        OpR8::E,
        OpR8::H,
        OpR8::L,
        OpR8::HL,
        OpR8::A,
    ];
    for v in 0..8u8 {
        assert_eq!(OpR8::decode_from(v), Ok(expected[v as usize]));
    }
    assert_eq!(OpR8::decode_from(8), Err(DecodeError::InvalidR8));
}

#[test]
fn r16_fields_decode_in_canonical_order() {
    let expected_r16 = [OpR16::BC, OpR16::DE, OpR16::HL, OpR16::SP];
    let expected_stk = [OpR16Stk::BC, OpR16Stk::DE, OpR16Stk::HL, OpR16Stk::AF];
    let expected_mem = [
        OpR16Mem::BC,
        OpR16Mem::DE,
        OpR16Mem::HLPlus,
        OpR16Mem::HLMinus,
    ];
    for v in 0..4u8 {
        assert_eq!(OpR16::decode_from(v), Ok(expected_r16[v as usize]));
        assert_eq!(OpR16Stk::decode_from(v), Ok(expected_stk[v as usize]));
        assert_eq!(OpR16Mem::decode_from(v), Ok(expected_mem[v as usize]));
    }
    assert_eq!(OpR16::decode_from(4), Err(DecodeError::InvalidR16));
    assert_eq!(OpR16Stk::decode_from(4), Err(DecodeError::InvalidR16));
    assert_eq!(OpR16Mem::decode_from(4), Err(DecodeError::InvalidR16));
}

#[test]
fn decode_single_opcodes() {
    assert_eq!(decode_opcode(0x83, 0, 0), Ok(Instruction::AddAR8(OpR8::E)));
    assert_eq!(decode_opcode(0x00, 0, 0), Ok(Instruction::Nop));
    assert_eq!(
        decode_opcode(0b00110001, 0, 0),
        Ok(Instruction::LdR16Imm16(OpR16::SP))
    );
    assert_eq!(decode_opcode(0b00001000, 0, 0), Ok(Instruction::LdImm16SP));
    // operand bytes are consumed where the encoding has them
    assert_eq!(
        decode_opcode(0xc3, 0x34, 0x12),
        Ok(Instruction::JpImm16(0x1234))
    );
    assert_eq!(decode_opcode(0x41, 0, 0), Ok(Instruction::LdR8R8(OpR8::B, OpR8::C)));
    assert_eq!(decode_opcode(0x76, 0, 0), Ok(Instruction::Halt));
    assert_eq!(decode_opcode(0xe0, 0x80, 0), Ok(Instruction::LdhImm8A(0x80)));
    // the 0xCB prefix selects the bit-operation table from the next byte
    assert_eq!(
        decode_opcode(0xcb, 0x7e, 0),
        Ok(Instruction::BitB3R8(7, OpR8::HL))
    );
    assert_eq!(
        decode_opcode(0xcb, 0x37, 0),
        Ok(Instruction::SwapR8(OpR8::A))
    );
}

#[test]
fn decoded_operand_byte_counts() {
    // ld sp, imm16 and ld [imm16], sp each consume two bytes past the opcode
    assert_eq!(decode_opcode(0b00110001, 0, 0).unwrap().extra_bytes(), 2);
    assert_eq!(decode_opcode(0b00001000, 0, 0).unwrap().extra_bytes(), 2);
    // one-byte instructions consume none
    assert_eq!(decode_opcode(0x00, 0, 0).unwrap().extra_bytes(), 0);
    assert_eq!(decode_opcode(0x83, 0, 0).unwrap().extra_bytes(), 0);
    assert_eq!(decode_opcode(0x32, 0, 0).unwrap().extra_bytes(), 0);
    // imm8 instructions consume one, 0xCB-prefixed ones their second byte
    assert_eq!(decode_opcode(0x3e, 0, 0).unwrap().extra_bytes(), 1);
    assert_eq!(decode_opcode(0x18, 0, 0).unwrap().extra_bytes(), 1);
    assert_eq!(decode_opcode(0xcb, 0x11, 0).unwrap().extra_bytes(), 1);
}

#[test]
fn undefined_opcodes_are_errors() {
    // exactly the eleven genuinely undefined bytes are rejected
    let undefined = [
        0xd3u8, 0xdb, 0xdd, 0xe3, 0xe4, 0xeb, 0xec, 0xed, 0xf4, 0xfc, 0xfd,
    ];
    for b in undefined {
        assert_eq!(
            decode_opcode(b, 0, 0),
            Err(DecodeError::NoMatchingInstruction(b))
        );
    }
}

#[test]
fn encode_decode_roundtrip() {
    let r16s = [OpR16::BC, OpR16::DE, OpR16::HL, OpR16::SP];
    let mems = [
        OpR16Mem::BC,
        OpR16Mem::DE,
        OpR16Mem::HLPlus,
        OpR16Mem::HLMinus,
    ];
    let r8s = [
        OpR8::B,
        OpR8::C,
        OpR8::D,
        OpR8::E,
        OpR8::H,
        OpR8::L,
        OpR8::HL,
        OpR8::A,
    ];

    let mut instructions = vec![Instruction::Nop, Instruction::LdImm16SP];
    for r in r16s {
        instructions.push(Instruction::LdR16Imm16(r));
        instructions.push(Instruction::IncR16(r));
        instructions.push(Instruction::DecR16(r));
        instructions.push(Instruction::AddHlR16(r));
    }
    for m in mems {
        instructions.push(Instruction::LdR16MemA(m));
        instructions.push(Instruction::LdAR16Mem(m));
    }
    for r in r8s {
        instructions.push(Instruction::AddAR8(r));
        instructions.push(Instruction::AdcAR8(r));
        instructions.push(Instruction::SubAR8(r));
        instructions.push(Instruction::SbcAR8(r));
        instructions.push(Instruction::AndAR8(r));
        instructions.push(Instruction::XorAR8(r));
        instructions.push(Instruction::OrAR8(r));
        instructions.push(Instruction::CpAR8(r));
    }

    instructions.push(Instruction::Halt);
    instructions.push(Instruction::JpHl);
    instructions.push(Instruction::CallImm16(0xbeef));
    instructions.push(Instruction::JpCondImm16(
        sm83_core::machine::instructions::OpCond::NZ,
        0x0150,
    ));
    instructions.push(Instruction::LdR8R8(OpR8::B, OpR8::HL));
    instructions.push(Instruction::LdR8Imm8(OpR8::D));
    instructions.push(Instruction::RstTgt3(5));
    instructions.push(Instruction::BitB3R8(3, OpR8::E));
    instructions.push(Instruction::SetB3R8(0, OpR8::HL));
    instructions.push(Instruction::Daa);
    instructions.push(Instruction::LdhAImm8(0x44));

    for inst in instructions {
        let e = inst.encode().unwrap();
        let lo = if e.len() > 1 { e[1] } else { 0x5a };
        let hi = if e.len() > 2 { e[2] } else { 0xa5 };
        assert_eq!(decode_opcode(e[0], lo, hi), Ok(inst));
    }

    // the unencodable payloads: the ld slot that is halt, and out-of-range
    // bit indexes and restart targets
    assert_eq!(Instruction::LdR8R8(OpR8::HL, OpR8::HL).encode(), None);
    assert_eq!(Instruction::RstTgt3(8).encode(), None);
    assert_eq!(Instruction::BitB3R8(9, OpR8::B).encode(), None);
}

#[test]
fn decode_encode_all_bytes() {
    // every byte the decoder accepts encodes back to the bytes it consumed;
    // only the eleven undefined bytes are rejected
    let undefined = [
        0xd3u8, 0xdb, 0xdd, 0xe3, 0xe4, 0xeb, 0xec, 0xed, 0xf4, 0xfc, 0xfd,
    ];
    let mut decodable: u32 = 0;
    for b in 0..=255u8 {
        match decode_opcode(b, 0x34, 0x12) {
            Ok(inst) => {
                let e = inst.encode().unwrap();
                assert_eq!(e[0], b);
                if e.len() > 1 {
                    assert_eq!(e[1], 0x34);
                }
                if e.len() > 2 {
                    assert_eq!(e[2], 0x12);
                }
                decodable += 1;
            }
            Err(e) => {
                assert!(undefined.contains(&b));
                assert_eq!(e, DecodeError::NoMatchingInstruction(b));
            }
        }
    }
    assert_eq!(decodable, 256 - 11);

    // every second byte of the 0xCB table is defined and round trips
    for sub in 0..=255u8 {
        let inst = decode_opcode(0xcb, sub, 0).unwrap();
        assert_eq!(inst.encode().unwrap(), vec![0xcb, sub]);
    }
}

#[test]
fn load_ram_rejects_oversized_images() {
    let mut machine = Machine::new();
    let too_big = vec![0u8; 0x10000 + 1];
    assert!(machine.load_ram(&too_big).is_err());
    // a rejected load leaves memory untouched
    assert_eq!(machine.read_ram(0), 0);

    let exact = vec![0xabu8; 0x10000];
    assert!(machine.load_ram(&exact).is_ok());
    assert_eq!(machine.read_ram(0), 0xab);
    assert_eq!(machine.read_ram(0xffff), 0xab);
}

#[test]
fn load_ram_keeps_the_tail() {
    let mut machine = Machine::new();
    assert!(machine.load_ram(&[1, 2, 3]).is_ok());
    assert_eq!(machine.read_ram(0), 1);
    assert_eq!(machine.read_ram(1), 2);
    assert_eq!(machine.read_ram(2), 3);
    assert_eq!(machine.read_ram(3), 0);

    // a shorter reload only overwrites the front
    assert!(machine.load_ram(&[9]).is_ok());
    assert_eq!(machine.read_ram(0), 9);
    assert_eq!(machine.read_ram(1), 2);
}

#[test]
fn decode_does_not_move_pc() {
    let mut machine = Machine::new();
    machine.load_ram(&[0x83]).unwrap();
    let before = machine.registers.get_u16(Register16::PC);
    let _ = machine.decode_instruction();
    assert_eq!(machine.registers.get_u16(Register16::PC), before);
}
