use dmg_cpu::cpu::CPU;
use dmg_cpu::registers::{FlagsRegister, Registers};

fn flags_of(cpu: &CPU) -> (bool, bool, bool, bool) {
    let f: &FlagsRegister = &cpu.registers.f;
    (f.zero, f.subtract, f.half_carry, f.carry)
}

#[test]
fn add_overflowing_to_zero_sets_zero_half_carry_and_carry() {
    let mut cpu = CPU::test();
    cpu.registers.a = 0x3A;
    cpu.registers.b = 0xC6;
    assert_eq!(cpu.execute(false, 0x80), 1);
    assert_eq!(cpu.registers.a, 0);
    assert_eq!(flags_of(&cpu), (true, false, true, true));
}

#[test]
fn add_without_carry() {
    let mut cpu = CPU::test();
    cpu.registers.a = 0x12;
    cpu.registers.h = 0x34;
    cpu.execute(false, 0x84);
    assert_eq!(cpu.registers.a, 0x46);
    assert_eq!(flags_of(&cpu), (false, false, false, false));
}

#[test]
fn add_leaves_the_other_registers() {
    let mut cpu = CPU::test();
    cpu.registers.a = 1;
    cpu.registers.b = 2;
    cpu.registers.c = 3;
    cpu.registers.d = 4;
    cpu.registers.e = 5;
    cpu.registers.h = 6;
    cpu.registers.l = 7;
    cpu.execute(false, 0x81);
    assert_eq!(cpu.registers.a, 4);
    assert_eq!(
        (cpu.registers.b, cpu.registers.c, cpu.registers.d, cpu.registers.e, cpu.registers.h, cpu.registers.l),
        (2, 3, 4, 5, 6, 7)
    );
}

#[test]
fn adc_with_operand_ff_and_carry_carries() {
    let mut cpu = CPU::test();
    cpu.registers.a = 0x10;
    cpu.registers.b = 0xFF;
    cpu.registers.f.carry = true;
    cpu.execute(false, 0x88);
    assert_eq!(cpu.registers.a, 0x10);
    assert_eq!(flags_of(&cpu), (false, false, true, true));
}

#[test]
fn adc_half_carry_counts_incoming_carry() {
    let mut cpu = CPU::test();
    cpu.registers.a = 0x0E;
    cpu.registers.d = 0x01;
    cpu.registers.f.carry = true;
    cpu.execute(false, 0x8A);
    assert_eq!(cpu.registers.a, 0x10);
    assert_eq!(flags_of(&cpu), (false, false, true, false));
}

#[test]
fn sub_borrowing_from_the_upper_nibble() {
    let mut cpu = CPU::test();
    cpu.registers.a = 0x10;
    cpu.registers.b = 0x01;
    cpu.execute(false, 0x90);
    assert_eq!(cpu.registers.a, 0x0F);
    assert_eq!(flags_of(&cpu), (false, true, true, false));
}

#[test]
fn sub_a_from_itself_clears_it() {
    let mut cpu = CPU::test();
    cpu.registers.a = 0x5C;
    cpu.execute(false, 0x97);
    assert_eq!(cpu.registers.a, 0);
    assert_eq!(flags_of(&cpu), (true, true, false, false));
}

#[test]
fn sub_l_writes_a_and_keeps_l() {
    let mut cpu = CPU::test();
    cpu.registers.a = 5;
    cpu.registers.l = 3;
    cpu.execute(false, 0x95);
    assert_eq!(cpu.registers.a, 2);
    assert_eq!(cpu.registers.l, 3);
}

#[test]
fn sbc_borrowing_only_from_the_upper_nibble() {
    let mut cpu = CPU::test();
    cpu.registers.a = 0x0F;
    cpu.registers.e = 0x1F;
    cpu.execute(false, 0x9B);
    assert_eq!(cpu.registers.a, 0xF0);
    assert_eq!(flags_of(&cpu), (false, true, false, true));
}

#[test]
fn sbc_of_zero_with_carry_borrows_from_both_nibbles() {
    let mut cpu = CPU::test();
    cpu.registers.f.carry = true;
    cpu.execute(false, 0x98);
    assert_eq!(cpu.registers.a, 0xFF);
    assert_eq!(flags_of(&cpu), (false, true, true, true));
}

#[test]
fn sbc_with_operand_ff_and_carry_borrows() {
    let mut cpu = CPU::test();
    cpu.registers.a = 0x10;
    cpu.registers.h = 0xFF;
    cpu.registers.f.carry = true;
    cpu.execute(false, 0x9C);
    assert_eq!(cpu.registers.a, 0x10);
    assert_eq!(flags_of(&cpu), (false, true, true, true));
}

#[test]
fn sbc_a_from_itself_subtracts_the_carry() {
    let mut cpu = CPU::test();
    cpu.registers.a = 5;
    cpu.registers.f.carry = true;
    cpu.execute(false, 0x9F);
    assert_eq!(cpu.registers.a, 0xFF);
    assert_eq!(flags_of(&cpu), (false, true, true, true));
}

#[test]
fn and_or_xor_to_zero_set_only_zero() {
    let mut cpu = CPU::test();
    cpu.registers.a = 0xF0;
    cpu.registers.b = 0x0F;
    cpu.registers.f.carry = true;
    cpu.execute(false, 0xA0);
    assert_eq!(cpu.registers.a, 0);
    assert_eq!(flags_of(&cpu), (true, false, false, false));

    cpu.registers.a = 0x77;
    cpu.execute(false, 0xAF);
    assert_eq!(cpu.registers.a, 0);
    assert_eq!(flags_of(&cpu), (true, false, false, false));

    cpu.registers.f.carry = true;
    cpu.registers.b = 0;
    cpu.execute(false, 0xB0);
    assert_eq!(cpu.registers.a, 0);
    assert_eq!(flags_of(&cpu), (true, false, false, false));
}

#[test]
fn or_and_xor_results() {
    let mut cpu = CPU::test();
    cpu.registers.a = 0b1100_1100;
    cpu.registers.h = 0b1010_1010;
    cpu.execute(false, 0xB4);
    assert_eq!(cpu.registers.a, 0b1110_1110);
    cpu.execute(false, 0xA4);
    assert_eq!(cpu.registers.a, 0b1010_1010);
    cpu.execute(false, 0xAC);
    assert_eq!(cpu.registers.a, 0);
}

#[test]
fn inc_sets_zero_from_the_result() {
    let mut cpu = CPU::test();
    cpu.registers.b = 0xFF;
    cpu.registers.f.carry = true;
    cpu.execute(false, 0x04);
    assert_eq!(cpu.registers.b, 0);
    assert_eq!(flags_of(&cpu), (true, false, true, true));

    cpu.execute(false, 0x04);
    assert_eq!(cpu.registers.b, 1);
    assert_eq!(flags_of(&cpu), (false, false, false, true));
}

#[test]
fn dec_to_zero_and_below() {
    let mut cpu = CPU::test();
    cpu.registers.a = 1;
    cpu.execute(false, 0x3D);
    assert_eq!(cpu.registers.a, 0);
    assert_eq!(flags_of(&cpu), (true, true, false, false));
    cpu.execute(false, 0x3D);
    assert_eq!(cpu.registers.a, 0xFF);
    assert_eq!(flags_of(&cpu), (false, true, true, false));
}

#[test]
fn inc_then_dec_restores_every_register() {
    let opcodes = [(0x04, 0x05), (0x0C, 0x0D), (0x14, 0x15), (0x1C, 0x1D), (0x24, 0x25), (0x2C, 0x2D), (0x3C, 0x3D)];
    for (inc, dec) in opcodes {
        let mut cpu = CPU::test();
        cpu.registers.a = 0x80;
        cpu.registers.b = 0xFF;
        cpu.registers.c = 0x0F;
        cpu.registers.d = 0x10;
        cpu.registers.e = 0x00;
        cpu.registers.h = 0x7F;
        cpu.registers.l = 0x01;
        cpu.execute(false, inc);
        cpu.execute(false, dec);
        assert_eq!(
            (cpu.registers.a, cpu.registers.b, cpu.registers.c, cpu.registers.d, cpu.registers.e, cpu.registers.h, cpu.registers.l),
            (0x80, 0xFF, 0x0F, 0x10, 0x00, 0x7F, 0x01)
        );
    }
}

#[test]
fn inc16_wraps_and_sets_flags() {
    let mut cpu = CPU::test();
    cpu.registers.set_hl(0xFFFF);
    cpu.execute(false, 0x23);
    assert_eq!(cpu.registers.get_hl(), 0);
    assert_eq!(flags_of(&cpu), (true, false, true, false));
}

#[test]
fn dec16_borrows_across_the_bytes() {
    let mut cpu = CPU::test();
    cpu.registers.set_de(0x0100);
    cpu.execute(false, 0x1B);
    assert_eq!(cpu.registers.get_de(), 0x00FF);
    assert_eq!((cpu.registers.d, cpu.registers.e), (0x00, 0xFF));
    assert_eq!(flags_of(&cpu), (false, true, true, false));
}

#[test]
fn inc16_then_dec16_restores_the_pair() {
    let mut cpu = CPU::test();
    cpu.registers.set_bc(0x12FF);
    cpu.execute(false, 0x03);
    assert_eq!(cpu.registers.get_bc(), 0x1300);
    cpu.execute(false, 0x0B);
    assert_eq!(cpu.registers.get_bc(), 0x12FF);
}

#[test]
fn add_hl_overflow_keeps_zero() {
    let mut cpu = CPU::test();
    cpu.registers.set_hl(0x8000);
    cpu.registers.set_de(0x8000);
    cpu.execute(false, 0x19);
    assert_eq!(cpu.registers.get_hl(), 0);
    assert_eq!(flags_of(&cpu), (false, false, false, true));
}

#[test]
fn add_hl_to_itself() {
    let mut cpu = CPU::test();
    cpu.registers.set_hl(0x0800);
    cpu.registers.f.zero = true;
    cpu.execute(false, 0x29);
    assert_eq!(cpu.registers.get_hl(), 0x1000);
    assert_eq!(flags_of(&cpu), (true, false, true, false));
}

#[test]
fn add_hl_half_carry_from_the_low_twelve_bits() {
    let mut cpu = CPU::test();
    cpu.registers.set_hl(0x0FFF);
    cpu.registers.set_bc(0x0001);
    cpu.execute(false, 0x09);
    assert_eq!(cpu.registers.get_hl(), 0x1000);
    assert_eq!(flags_of(&cpu), (false, false, true, false));

    let mut cpu = CPU::test();
    cpu.registers.set_hl(0x0001);
    cpu.registers.set_de(0x0800);
    cpu.execute(false, 0x19);
    assert_eq!(cpu.registers.get_hl(), 0x0801);
    assert_eq!(flags_of(&cpu), (false, false, false, false));
}

#[test]
fn swap_exchanges_nibbles() {
    let mut cpu = CPU::test();
    cpu.registers.a = 0x12;
    cpu.execute(true, 0x37);
    assert_eq!(cpu.registers.a, 0x21);
    assert_eq!(flags_of(&cpu), (false, false, false, false));
    cpu.execute(true, 0x37);
    assert_eq!(cpu.registers.a, 0x12);
    cpu.registers.l = 0;
    cpu.execute_cb_prefixed(0x35);
    assert_eq!(cpu.registers.l, 0);
    assert_eq!(flags_of(&cpu), (true, false, false, false));
}

#[test]
fn rlc_and_rrc_move_the_edge_bit_around() {
    let mut cpu = CPU::test();
    cpu.registers.b = 0x80;
    cpu.execute_cb_prefixed(0x00);
    assert_eq!(cpu.registers.b, 0x01);
    assert_eq!(flags_of(&cpu), (false, false, false, true));
    cpu.execute_cb_prefixed(0x08);
    assert_eq!(cpu.registers.b, 0x80);
    assert_eq!(flags_of(&cpu), (false, false, false, true));
}

#[test]
fn rl_and_rr_go_through_the_carry() {
    let mut cpu = CPU::test();
    cpu.registers.d = 0x80;
    cpu.execute(true, 0x12);
    assert_eq!(cpu.registers.d, 0x00);
    assert_eq!(flags_of(&cpu), (true, false, false, true));
    cpu.execute(true, 0x1A);
    assert_eq!(cpu.registers.d, 0x80);
    assert_eq!(flags_of(&cpu), (false, false, false, false));
}

#[test]
fn rr_then_rl_restores_value_and_carry() {
    let mut cpu = CPU::test();
    cpu.registers.e = 0b0110_1011;
    cpu.registers.f.carry = true;
    cpu.execute(true, 0x1B);
    assert_eq!(cpu.registers.e, 0b1011_0101);
    assert!(cpu.registers.f.carry);
    cpu.execute(true, 0x13);
    assert_eq!(cpu.registers.e, 0b0110_1011);
    assert!(cpu.registers.f.carry);
}

#[test]
fn prefixed_execute_runs_only_the_prefixed_instruction() {
    let mut cpu = CPU::test();
    cpu.registers.h = 0x80;
    assert_eq!(cpu.execute(true, 0x04), 1);
    assert_eq!(cpu.registers.h, 0x01);
    assert_eq!(cpu.registers.b, 0);
}

#[test]
fn execute_returns_the_next_address_and_keeps_the_program_counter() {
    let mut cpu = CPU::test();
    assert_eq!(cpu.execute(false, 0x3C), 1);
    assert_eq!(cpu.execute(false, 0x3C), 1);
    assert_eq!(cpu.execute_cb_prefixed(0x07), 1);
}

#[test]
fn adc_with_carry_clear_matches_add() {
    for (a, b) in [(0x00u8, 0x00u8), (0x0F, 0x01), (0xF0, 0x10), (0x7F, 0x81), (0x55, 0x22)] {
        let mut with_add = CPU::test();
        with_add.registers.a = a;
        with_add.registers.b = b;
        with_add.execute(false, 0x80);
        let mut with_adc = CPU::test();
        with_adc.registers.a = a;
        with_adc.registers.b = b;
        with_adc.execute(false, 0x88);
        assert_eq!(with_add.registers.a, with_adc.registers.a);
        assert_eq!(flags_of(&with_add), flags_of(&with_adc));
    }
}

#[test]
fn sbc_with_carry_clear_matches_sub() {
    for (a, b) in [(0x00u8, 0x00u8), (0x10, 0x01), (0x0F, 0x1F), (0x80, 0x7F), (0x55, 0x55)] {
        let mut with_sub = CPU::test();
        with_sub.registers.a = a;
        with_sub.registers.b = b;
        with_sub.execute(false, 0x90);
        let mut with_sbc = CPU::test();
        with_sbc.registers.a = a;
        with_sbc.registers.b = b;
        with_sbc.execute(false, 0x98);
        assert_eq!(with_sub.registers.a, with_sbc.registers.a);
        assert_eq!(flags_of(&with_sub), flags_of(&with_sbc));
    }
}

#[test]
fn set_registers_then_read_them() {
    let mut cpu = CPU::test();
    let regs = Registers {
        a: 1,
        b: 2,
        c: 3,
        d: 4,
        e: 5,
        f: FlagsRegister { zero: true, subtract: false, half_carry: true, carry: false },
        h: 6,
        l: 7,
    };
    cpu.set_registers(regs);
    let back = cpu.registers();
    assert_eq!((back.a, back.b, back.c, back.d, back.e, back.h, back.l), (1, 2, 3, 4, 5, 6, 7));
    assert!(back.f.zero && !back.f.subtract && back.f.half_carry && !back.f.carry);
    assert_eq!(cpu.execute(false, 0x3C), 1);
    assert_eq!(cpu.registers().a, 2);
}

#[test]
fn inc_dec_zero_flag_follows_the_result() {
    let mut cpu = CPU::test();
    cpu.execute(false, 0x0C);
    assert_eq!(cpu.registers.c, 1);
    assert!(!cpu.registers.f.zero);
    cpu.execute(false, 0x0D);
    assert_eq!(cpu.registers.c, 0);
    assert!(cpu.registers.f.zero);
}
