use sm83_core::machine::registers::{Flag, Register16, Register8};
use sm83_core::machine::{DecodeError, Machine};

fn machine_with(program: &[u8]) -> Machine {
    let mut machine = Machine::new();
    machine.load_ram(program).unwrap();
    machine
}

fn flags(machine: &Machine) -> (bool, bool, bool, bool) {
    (
        machine.registers.get_flag(Flag::Zero),
        machine.registers.get_flag(Flag::Subtraction),
        machine.registers.get_flag(Flag::HalfCarry),
        machine.registers.get_flag(Flag::Carry),
    )
}

#[test]
fn step_nop() {
    let mut machine = machine_with(&[0x00]);
    assert_eq!(machine.cycle(), Ok(()));
    assert_eq!(machine.registers.get_u16(Register16::PC), 1);
    assert_eq!(machine.cycles, 4);
}

#[test]
fn step_add_sets_all_flags() {
    // add a, b with 0x3a + 0xc6 = 0x100: zero result, half carry and carry
    let mut machine = machine_with(&[0x80]);
    machine.registers.set_u8(Register8::A, 0x3a);
    machine.registers.set_u8(Register8::B, 0xc6);
    assert_eq!(machine.cycle(), Ok(()));
    assert_eq!(machine.registers.get_u8(Register8::A), 0x00);
    assert_eq!(flags(&machine), (true, false, true, true));
    assert_eq!(machine.registers.get_u16(Register16::PC), 1);
    assert_eq!(machine.cycles, 4);
}

#[test]
fn step_adc_uses_the_carry_flag() {
    // adc a, b with carry set: 0x0f + 0x00 + 1 carries out of bit 3
    let mut machine = machine_with(&[0x88]);
    machine.registers.set_u8(Register8::A, 0x0f);
    machine.registers.set_u8(Register8::B, 0x00);
    machine.registers.set_flag(Flag::Carry, true);
    assert_eq!(machine.cycle(), Ok(()));
    assert_eq!(machine.registers.get_u8(Register8::A), 0x10);
    assert_eq!(flags(&machine), (false, false, true, false));
}

#[test]
fn step_sub_borrows() {
    // sub a, b with 0x10 - 0x20: wraps to 0xf0 with a full borrow
    let mut machine = machine_with(&[0x90]);
    machine.registers.set_u8(Register8::A, 0x10);
    machine.registers.set_u8(Register8::B, 0x20);
    assert_eq!(machine.cycle(), Ok(()));
    assert_eq!(machine.registers.get_u8(Register8::A), 0xf0);
    assert_eq!(flags(&machine), (false, true, false, true));
}

#[test]
fn step_sub_half_borrows() {
    // sub a, b with 0x10 - 0x01: borrow out of bit 4 only
    let mut machine = machine_with(&[0x90]);
    machine.registers.set_u8(Register8::A, 0x10);
    machine.registers.set_u8(Register8::B, 0x01);
    assert_eq!(machine.cycle(), Ok(()));
    assert_eq!(machine.registers.get_u8(Register8::A), 0x0f);
    assert_eq!(flags(&machine), (false, true, true, false));
}

#[test]
fn step_sbc_uses_the_carry_flag() {
    // sbc a, b with carry set: 0x10 - 0x0f - 1 = 0
    let mut machine = machine_with(&[0x98]);
    machine.registers.set_u8(Register8::A, 0x10);
    machine.registers.set_u8(Register8::B, 0x0f);
    machine.registers.set_flag(Flag::Carry, true);
    assert_eq!(machine.cycle(), Ok(()));
    assert_eq!(machine.registers.get_u8(Register8::A), 0x00);
    assert_eq!(flags(&machine), (true, true, true, false));
}

#[test]
fn step_and_forces_half_carry() {
    let mut machine = machine_with(&[0xa0]);
    machine.registers.set_u8(Register8::A, 0xf0);
    machine.registers.set_u8(Register8::B, 0x0f);
    assert_eq!(machine.cycle(), Ok(()));
    assert_eq!(machine.registers.get_u8(Register8::A), 0x00);
    assert_eq!(flags(&machine), (true, false, true, false));
}

#[test]
fn step_xor_clears_carries() {
    let mut machine = machine_with(&[0xa8]);
    machine.registers.set_u8(Register8::A, 0xff);
    machine.registers.set_u8(Register8::B, 0x0f);
    machine.registers.set_flag(Flag::Carry, true);
    assert_eq!(machine.cycle(), Ok(()));
    assert_eq!(machine.registers.get_u8(Register8::A), 0xf0);
    assert_eq!(flags(&machine), (false, false, false, false));
}

#[test]
fn step_or_zero() {
    let mut machine = machine_with(&[0xb0]);
    assert_eq!(machine.cycle(), Ok(()));
    assert_eq!(machine.registers.get_u8(Register8::A), 0x00);
    assert_eq!(flags(&machine), (true, false, false, false));
}

#[test]
fn step_cp_discards_the_result() {
    // cp a, b compares equal values: A keeps its value, Zero is set
    let mut machine = machine_with(&[0xb8]);
    machine.registers.set_u8(Register8::A, 0x42);
    machine.registers.set_u8(Register8::B, 0x42);
    assert_eq!(machine.cycle(), Ok(()));
    assert_eq!(machine.registers.get_u8(Register8::A), 0x42);
    assert_eq!(flags(&machine), (true, true, false, false));
}

#[test]
fn step_alu_hl_indirect_costs_more() {
    // add a, [hl] reads the operand through HL and costs 8 cycles
    let mut machine = machine_with(&[0x86, 0x00, 0x00, 0x05]);
    machine.registers.set_u8(Register8::A, 0x02);
    machine.registers.set_u16(Register16::HL, 0x0003);
    assert_eq!(machine.cycle(), Ok(()));
    assert_eq!(machine.registers.get_u8(Register8::A), 0x07);
    assert_eq!(machine.cycles, 8);
}

#[test]
fn step_ld_r16_imm16() {
    // ld sp, 0x1234 consumes the two little-endian immediate bytes
    let mut machine = machine_with(&[0x31, 0x34, 0x12]);
    assert_eq!(machine.cycle(), Ok(()));
    assert_eq!(machine.registers.get_u16(Register16::SP), 0x1234);
    assert_eq!(machine.registers.get_u16(Register16::PC), 3);
    assert_eq!(machine.cycles, 12);
}

#[test]
fn step_ld_imm16_sp() {
    // ld [0x0020], sp stores SP little-endian
    let mut machine = machine_with(&[0x08, 0x20, 0x00]);
    machine.registers.set_u16(Register16::SP, 0xbeef);
    assert_eq!(machine.cycle(), Ok(()));
    assert_eq!(machine.read_ram(0x20), 0xef);
    assert_eq!(machine.read_ram(0x21), 0xbe);
    assert_eq!(machine.registers.get_u16(Register16::PC), 3);
    assert_eq!(machine.cycles, 20);
}

#[test]
fn step_ld_hl_minus_a() {
    // ld [hl-], a stores A and then decrements HL
    let mut machine = machine_with(&[0x32]);
    machine.registers.set_u8(Register8::A, 0x42);
    machine.registers.set_u16(Register16::HL, 0x0100);
    assert_eq!(machine.cycle(), Ok(()));
    assert_eq!(machine.read_ram(0x0100), 0x42);
    assert_eq!(machine.registers.get_u16(Register16::HL), 0x00ff);
    assert_eq!(machine.cycles, 8);
}

#[test]
fn step_ld_a_hl_plus() {
    // ld a, [hl+] loads A and then increments HL
    let mut machine = machine_with(&[0x2a, 0x00, 0x77]);
    machine.registers.set_u16(Register16::HL, 0x0002);
    assert_eq!(machine.cycle(), Ok(()));
    assert_eq!(machine.registers.get_u8(Register8::A), 0x77);
    assert_eq!(machine.registers.get_u16(Register16::HL), 0x0003);
}

#[test]
fn step_ld_bc_a() {
    let mut machine = machine_with(&[0x02]);
    machine.registers.set_u8(Register8::A, 0x99);
    machine.registers.set_u16(Register16::BC, 0x0123);
    assert_eq!(machine.cycle(), Ok(()));
    assert_eq!(machine.read_ram(0x0123), 0x99);
    assert_eq!(machine.registers.get_u16(Register16::BC), 0x0123);
}

#[test]
fn step_inc_r16_wraps() {
    let mut machine = machine_with(&[0x03]);
    machine.registers.set_u16(Register16::BC, 0xffff);
    assert_eq!(machine.cycle(), Ok(()));
    assert_eq!(machine.registers.get_u16(Register16::BC), 0x0000);
    assert_eq!(machine.cycles, 8);
}

#[test]
fn step_dec_r16_wraps() {
    let mut machine = machine_with(&[0x0b]);
    machine.registers.set_u16(Register16::BC, 0x0000);
    assert_eq!(machine.cycle(), Ok(()));
    assert_eq!(machine.registers.get_u16(Register16::BC), 0xffff);
}

#[test]
fn step_add_hl_half_carry_from_bit_11() {
    // add hl, hl with 0x0800 + 0x0800 carries out of bit 11 only
    let mut machine = machine_with(&[0x29]);
    machine.registers.set_u16(Register16::HL, 0x0800);
    machine.registers.set_flag(Flag::Zero, true);
    machine.registers.set_flag(Flag::Subtraction, true);
    assert_eq!(machine.cycle(), Ok(()));
    assert_eq!(machine.registers.get_u16(Register16::HL), 0x1000);
    // Zero and Subtraction are unaffected by the 16-bit add
    assert_eq!(flags(&machine), (true, true, true, false));
}

#[test]
fn step_add_hl_carry_from_bit_15() {
    let mut machine = machine_with(&[0x29]);
    machine.registers.set_u16(Register16::HL, 0x8000);
    assert_eq!(machine.cycle(), Ok(()));
    assert_eq!(machine.registers.get_u16(Register16::HL), 0x0000);
    assert_eq!(flags(&machine), (false, false, false, true));
}

#[test]
fn step_undefined_opcode_mutates_nothing() {
    let mut machine = machine_with(&[0xd3]);
    machine.registers.set_u8(Register8::A, 0x55);
    assert_eq!(
        machine.cycle(),
        Err(DecodeError::NoMatchingInstruction(0xd3))
    );
    assert_eq!(machine.registers.get_u8(Register8::A), 0x55);
    assert_eq!(machine.registers.get_u16(Register16::PC), 0);
    assert_eq!(machine.cycles, 0);
}

#[test]
fn step_pc_wraps_around() {
    let mut machine = Machine::new();
    // the zero-filled memory holds a nop at 0xffff
    machine.registers.set_u16(Register16::PC, 0xffff);
    assert_eq!(machine.cycle(), Ok(()));
    assert_eq!(machine.registers.get_u16(Register16::PC), 0x0000);
}

#[test]
fn step_imm16_fetch_wraps_around() {
    // an ld sp, imm16 whose immediate bytes straddle the end of memory
    let mut image = vec![0u8; 0x10000];
    image[0xfffe] = 0x31;
    image[0xffff] = 0x34;
    image[0x0000] = 0x12;
    let mut machine = Machine::new();
    machine.load_ram(&image).unwrap();
    machine.registers.set_u16(Register16::PC, 0xfffe);
    assert_eq!(machine.cycle(), Ok(()));
    assert_eq!(machine.registers.get_u16(Register16::SP), 0x1234);
    assert_eq!(machine.registers.get_u16(Register16::PC), 0x0001);
}

#[test]
fn cycle_counter_accumulates() {
    let mut machine = machine_with(&[0x00, 0x31, 0x34, 0x12, 0x80]);
    assert_eq!(machine.cycle(), Ok(()));
    assert_eq!(machine.cycle(), Ok(()));
    assert_eq!(machine.cycle(), Ok(()));
    assert_eq!(machine.cycles, 4 + 12 + 4);
    assert_eq!(machine.registers.get_u16(Register16::PC), 5);
}

#[test]
fn step_ld_r8_r8() {
    // ld d, b copies the byte and touches no flags
    let mut machine = machine_with(&[0x50]);
    machine.registers.set_u8(Register8::B, 0x7b);
    machine.registers.set_flag(Flag::Carry, true);
    assert_eq!(machine.cycle(), Ok(()));
    assert_eq!(machine.registers.get_u8(Register8::D), 0x7b);
    assert_eq!(machine.registers.get_flag(Flag::Carry), true);
    assert_eq!(machine.cycles, 4);
}

#[test]
fn step_ld_hl_r8_writes_memory() {
    // ld [hl], a costs 8 cycles and stores through HL
    let mut machine = machine_with(&[0x77]);
    machine.registers.set_u8(Register8::A, 0x5c);
    machine.registers.set_u16(Register16::HL, 0x0040);
    assert_eq!(machine.cycle(), Ok(()));
    assert_eq!(machine.read_ram(0x0040), 0x5c);
    assert_eq!(machine.cycles, 8);
}

#[test]
fn step_ld_r8_imm8() {
    let mut machine = machine_with(&[0x3e, 0x99]);
    assert_eq!(machine.cycle(), Ok(()));
    assert_eq!(machine.registers.get_u8(Register8::A), 0x99);
    assert_eq!(machine.registers.get_u16(Register16::PC), 2);
    assert_eq!(machine.cycles, 8);
}

#[test]
fn step_inc_r8_keeps_carry() {
    // inc b on 0x0f: half carry set, carry untouched
    let mut machine = machine_with(&[0x04]);
    machine.registers.set_u8(Register8::B, 0x0f);
    machine.registers.set_flag(Flag::Carry, true);
    assert_eq!(machine.cycle(), Ok(()));
    assert_eq!(machine.registers.get_u8(Register8::B), 0x10);
    assert_eq!(flags(&machine), (false, false, true, true));
}

#[test]
fn step_dec_r8_to_zero() {
    let mut machine = machine_with(&[0x05]);
    machine.registers.set_u8(Register8::B, 0x01);
    assert_eq!(machine.cycle(), Ok(()));
    assert_eq!(machine.registers.get_u8(Register8::B), 0x00);
    assert_eq!(flags(&machine), (true, true, false, false));
}

#[test]
fn step_jr_backward() {
    // jr -2 loops back onto itself: 0xfe is -2
    let mut machine = machine_with(&[0x00, 0x18, 0xfe]);
    machine.registers.set_u16(Register16::PC, 1);
    assert_eq!(machine.cycle(), Ok(()));
    assert_eq!(machine.registers.get_u16(Register16::PC), 1);
    assert_eq!(machine.cycles, 12);
}

#[test]
fn step_jr_cond_not_taken() {
    // jr nz with the zero flag set falls through at the cheaper cost
    let mut machine = machine_with(&[0x20, 0x10]);
    machine.registers.set_flag(Flag::Zero, true);
    assert_eq!(machine.cycle(), Ok(()));
    assert_eq!(machine.registers.get_u16(Register16::PC), 2);
    assert_eq!(machine.cycles, 8);
}

#[test]
fn step_jp_and_jp_hl() {
    let mut machine = machine_with(&[0xc3, 0x34, 0x12]);
    assert_eq!(machine.cycle(), Ok(()));
    assert_eq!(machine.registers.get_u16(Register16::PC), 0x1234);
    assert_eq!(machine.cycles, 16);

    let mut machine = machine_with(&[0xe9]);
    machine.registers.set_u16(Register16::HL, 0x0abc);
    assert_eq!(machine.cycle(), Ok(()));
    assert_eq!(machine.registers.get_u16(Register16::PC), 0x0abc);
    assert_eq!(machine.cycles, 4);
}

#[test]
fn step_call_pushes_the_return_address() {
    let mut machine = machine_with(&[0xcd, 0x00, 0x10]);
    machine.registers.set_u16(Register16::SP, 0xfffe);
    assert_eq!(machine.cycle(), Ok(()));
    assert_eq!(machine.registers.get_u16(Register16::PC), 0x1000);
    assert_eq!(machine.registers.get_u16(Register16::SP), 0xfffc);
    // the post-instruction address 0x0003 sits little-endian at the new SP
    assert_eq!(machine.read_ram(0xfffc), 0x03);
    assert_eq!(machine.read_ram(0xfffd), 0x00);
    assert_eq!(machine.cycles, 24);
}

#[test]
fn step_ret_pops_the_address() {
    let mut machine = Machine::new();
    let mut image = vec![0u8; 0x10000];
    image[0x0000] = 0xc9;
    image[0xfffc] = 0x41;
    image[0xfffd] = 0x02;
    machine.load_ram(&image).unwrap();
    machine.registers.set_u16(Register16::SP, 0xfffc);
    assert_eq!(machine.cycle(), Ok(()));
    assert_eq!(machine.registers.get_u16(Register16::PC), 0x0241);
    assert_eq!(machine.registers.get_u16(Register16::SP), 0xfffe);
    assert_eq!(machine.cycles, 16);
}

#[test]
fn step_ret_cond_costs() {
    // ret z taken costs 20, not taken 8
    let mut machine = machine_with(&[0xc8]);
    machine.registers.set_flag(Flag::Zero, true);
    assert_eq!(machine.cycle(), Ok(()));
    assert_eq!(machine.cycles, 20);

    let mut machine = machine_with(&[0xc8]);
    assert_eq!(machine.cycle(), Ok(()));
    assert_eq!(machine.registers.get_u16(Register16::PC), 1);
    assert_eq!(machine.cycles, 8);
}

#[test]
fn step_rst_jumps_to_the_vector() {
    let mut machine = machine_with(&[0xef]);
    machine.registers.set_u16(Register16::SP, 0x8000);
    assert_eq!(machine.cycle(), Ok(()));
    assert_eq!(machine.registers.get_u16(Register16::PC), 0x0028);
    assert_eq!(machine.read_ram(0x7ffe), 0x01);
    assert_eq!(machine.cycles, 16);
}

#[test]
fn step_push_pop_round_trip() {
    // push bc then pop de moves the value across the stack
    let mut machine = machine_with(&[0xc5, 0xd1]);
    machine.registers.set_u16(Register16::BC, 0x1234);
    machine.registers.set_u16(Register16::SP, 0x9000);
    assert_eq!(machine.cycle(), Ok(()));
    assert_eq!(machine.registers.get_u16(Register16::SP), 0x8ffe);
    assert_eq!(machine.cycle(), Ok(()));
    assert_eq!(machine.registers.get_u16(Register16::DE), 0x1234);
    assert_eq!(machine.registers.get_u16(Register16::SP), 0x9000);
    assert_eq!(machine.cycles, 16 + 12);
}

#[test]
fn step_pop_af_masks_the_low_nibble() {
    let mut machine = Machine::new();
    let mut image = vec![0u8; 0x10000];
    image[0x0000] = 0xf1;
    image[0x9000] = 0xff;
    image[0x9001] = 0x12;
    machine.load_ram(&image).unwrap();
    machine.registers.set_u16(Register16::SP, 0x9000);
    assert_eq!(machine.cycle(), Ok(()));
    assert_eq!(machine.registers.get_u16(Register16::AF), 0x12f0);
}

#[test]
fn step_halt_suspends_until_resumed() {
    let mut machine = machine_with(&[0x76, 0x04]);
    assert_eq!(machine.cycle(), Ok(()));
    assert!(machine.suspended);
    assert_eq!(machine.registers.get_u16(Register16::PC), 1);
    // a suspended machine does not fetch
    assert_eq!(machine.cycle(), Ok(()));
    assert_eq!(machine.registers.get_u16(Register16::PC), 1);
    assert_eq!(machine.cycles, 4);
    // the collaborator delivers an interrupt by flipping the state back
    machine.suspended = false;
    assert_eq!(machine.cycle(), Ok(()));
    assert_eq!(machine.registers.get_u8(Register8::B), 0x01);
}

#[test]
fn step_reti_resumes_and_enables_interrupts() {
    let mut machine = machine_with(&[0xd9]);
    machine.registers.set_u16(Register16::SP, 0x9000);
    machine.suspended = false;
    machine.ime = false;
    assert_eq!(machine.cycle(), Ok(()));
    assert!(machine.ime);
    assert!(!machine.suspended);
    assert_eq!(machine.cycles, 16);
}

#[test]
fn step_ei_di_toggle_interrupts() {
    let mut machine = machine_with(&[0xfb, 0xf3]);
    assert_eq!(machine.cycle(), Ok(()));
    assert!(machine.ime);
    assert_eq!(machine.cycle(), Ok(()));
    assert!(!machine.ime);
}

#[test]
fn step_ldh_uses_the_high_page() {
    let mut machine = machine_with(&[0xe0, 0x80]);
    machine.registers.set_u8(Register8::A, 0x66);
    assert_eq!(machine.cycle(), Ok(()));
    assert_eq!(machine.read_ram(0xff80), 0x66);
    assert_eq!(machine.cycles, 12);
}

#[test]
fn step_daa_adjusts_bcd_addition() {
    // 0x15 + 0x27 = 0x3c in binary; daa corrects it to the BCD sum 0x42
    let mut machine = machine_with(&[0x80, 0x27]);
    machine.registers.set_u8(Register8::A, 0x15);
    machine.registers.set_u8(Register8::B, 0x27);
    assert_eq!(machine.cycle(), Ok(()));
    assert_eq!(machine.registers.get_u8(Register8::A), 0x3c);
    assert_eq!(machine.cycle(), Ok(()));
    assert_eq!(machine.registers.get_u8(Register8::A), 0x42);
    assert_eq!(machine.registers.get_flag(Flag::Carry), false);
}

#[test]
fn step_rotates_through_and_around_carry() {
    // rlca rotates bit 7 around into bit 0 and into the carry
    let mut machine = machine_with(&[0x07]);
    machine.registers.set_u8(Register8::A, 0x81);
    assert_eq!(machine.cycle(), Ok(()));
    assert_eq!(machine.registers.get_u8(Register8::A), 0x03);
    assert_eq!(flags(&machine), (false, false, false, true));

    // rla shifts the old carry in instead
    let mut machine = machine_with(&[0x17]);
    machine.registers.set_u8(Register8::A, 0x80);
    assert_eq!(machine.cycle(), Ok(()));
    assert_eq!(machine.registers.get_u8(Register8::A), 0x00);
    assert_eq!(flags(&machine), (false, false, false, true));
}

#[test]
fn step_cpl_scf_ccf() {
    let mut machine = machine_with(&[0x2f, 0x37, 0x3f]);
    machine.registers.set_u8(Register8::A, 0x0f);
    assert_eq!(machine.cycle(), Ok(()));
    assert_eq!(machine.registers.get_u8(Register8::A), 0xf0);
    assert_eq!(machine.registers.get_flag(Flag::Subtraction), true);
    assert_eq!(machine.registers.get_flag(Flag::HalfCarry), true);
    assert_eq!(machine.cycle(), Ok(()));
    assert_eq!(flags(&machine), (false, false, false, true));
    assert_eq!(machine.cycle(), Ok(()));
    assert_eq!(flags(&machine), (false, false, false, false));
}

#[test]
fn step_cb_rlc_and_srl() {
    // rlc b
    let mut machine = machine_with(&[0xcb, 0x00]);
    machine.registers.set_u8(Register8::B, 0x80);
    assert_eq!(machine.cycle(), Ok(()));
    assert_eq!(machine.registers.get_u8(Register8::B), 0x01);
    assert_eq!(flags(&machine), (false, false, false, true));
    assert_eq!(machine.registers.get_u16(Register16::PC), 2);
    assert_eq!(machine.cycles, 8);

    // srl a shifts logically right
    let mut machine = machine_with(&[0xcb, 0x3f]);
    machine.registers.set_u8(Register8::A, 0x01);
    assert_eq!(machine.cycle(), Ok(()));
    assert_eq!(machine.registers.get_u8(Register8::A), 0x00);
    assert_eq!(flags(&machine), (true, false, false, true));
}

#[test]
fn step_cb_swap_bit_set_res() {
    // swap a
    let mut machine = machine_with(&[0xcb, 0x37]);
    machine.registers.set_u8(Register8::A, 0xf1);
    assert_eq!(machine.cycle(), Ok(()));
    assert_eq!(machine.registers.get_u8(Register8::A), 0x1f);

    // bit 7, [hl]: only flags, costs 12 through HL
    let mut machine = machine_with(&[0xcb, 0x7e, 0x80]);
    machine.registers.set_u16(Register16::HL, 0x0002);
    assert_eq!(machine.cycle(), Ok(()));
    assert_eq!(flags(&machine), (false, false, true, false));
    assert_eq!(machine.cycles, 12);

    // set 0, b then res 0, b
    let mut machine = machine_with(&[0xcb, 0xc0, 0xcb, 0x80]);
    assert_eq!(machine.cycle(), Ok(()));
    assert_eq!(machine.registers.get_u8(Register8::B), 0x01);
    assert_eq!(machine.cycle(), Ok(()));
    assert_eq!(machine.registers.get_u8(Register8::B), 0x00);
}

#[test]
fn step_add_sp_signed_offset() {
    // add sp, -1 wraps SP down and takes its flags from the low byte
    let mut machine = machine_with(&[0xe8, 0xff]);
    machine.registers.set_u16(Register16::SP, 0x0000);
    assert_eq!(machine.cycle(), Ok(()));
    assert_eq!(machine.registers.get_u16(Register16::SP), 0xffff);
    assert_eq!(machine.registers.get_u16(Register16::PC), 2);
    assert_eq!(machine.cycles, 16);
}

#[test]
fn step_ld_hl_sp_offset_and_ld_sp_hl() {
    let mut machine = machine_with(&[0xf8, 0x02, 0xf9]);
    machine.registers.set_u16(Register16::SP, 0x8000);
    assert_eq!(machine.cycle(), Ok(()));
    assert_eq!(machine.registers.get_u16(Register16::HL), 0x8002);
    assert_eq!(machine.registers.get_u16(Register16::SP), 0x8000);
    assert_eq!(machine.cycle(), Ok(()));
    assert_eq!(machine.registers.get_u16(Register16::SP), 0x8002);
    assert_eq!(machine.cycles, 12 + 8);
}

#[test]
fn step_ld_a_via_imm16() {
    let mut machine = machine_with(&[0xea, 0x00, 0x20, 0xfa, 0x00, 0x20]);
    machine.registers.set_u8(Register8::A, 0x31);
    assert_eq!(machine.cycle(), Ok(()));
    assert_eq!(machine.read_ram(0x2000), 0x31);
    machine.registers.set_u8(Register8::A, 0x00);
    assert_eq!(machine.cycle(), Ok(()));
    assert_eq!(machine.registers.get_u8(Register8::A), 0x31);
    assert_eq!(machine.cycles, 16 + 16);
}
