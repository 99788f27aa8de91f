#![allow(non_snake_case)]

use dmg_cpu::cpu::CPU;

// All tests are done on register c

#[test]
fn test_test_ADD() {
    let mut cpu = CPU::test();
    cpu.registers.c = 1;
    cpu.execute(false, 0x81);
    assert_eq!(0x1, cpu.registers.a)
}

#[test]
fn test_test_ADC() {
    let mut cpu = CPU::test();
    cpu.registers.f.carry = true;
    cpu.execute(false, 0x89);
    assert_eq!(0x1, cpu.registers.a);
}

#[test]
fn test_test_SUB() {
    let mut cpu = CPU::test();
    cpu.registers.c = 0x1;
    cpu.execute(false, 0x91);
    assert_eq!(0xFF, cpu.registers.a);
}

#[test]
fn test_test_SBC() {
    let mut cpu = CPU::test();
    cpu.registers.f.carry = true;
    cpu.registers.c = 0x1;
    cpu.execute(false, 0x99);
    assert_eq!(0xFE, cpu.registers.a);
}

#[test]
fn test_test_AND() {
    let mut cpu = CPU::test();
    cpu.registers.c = 0xF;
    cpu.registers.a = 0b1111_0101;
    cpu.execute(false, 0xA1);
    assert_eq!(0x5, cpu.registers.a);
}

#[test]
fn test_test_XOR() {
    let mut cpu = CPU::test();
    cpu.registers.c = 0b0101_1011;
    cpu.registers.a = 0b1010_0101;
    cpu.execute(false, 0xA9);
    assert_eq!(0xFE, cpu.registers.a);
}

// OR A, C
#[test]
fn test_OR() {
    let mut cpu = CPU::test();
    cpu.registers.c = 0b0101_1010;
    cpu.registers.a = 0b1010_0101;
    cpu.execute(false, 0xB1);
    assert_eq!(0xFF, cpu.registers.a);
}

// XOR A, C
#[test]
fn tests_test_XOR() {
    let mut cpu = CPU::test();
    cpu.registers.c = 0b0101_1011;
    cpu.registers.a = 0b1010_0101;
    cpu.execute(false, 0xA9);
    assert_eq!(0xFE, cpu.registers.a);
}

// AND A, C
#[test]
fn tests_test_AND() {
    let mut cpu = CPU::test();
    cpu.registers.c = 0xF;
    cpu.registers.a = 0b1111_0101;
    cpu.execute(false, 0xA1);
    assert_eq!(0x5, cpu.registers.a);
}

// SWAP C
#[test]
fn test_SWAP() {
    let mut cpu = CPU::test();
    cpu.registers.c = 0xF;
    cpu.execute(true, 0x31);
    assert_eq!(0xF0, cpu.registers.c);
}

// INC C, then DEC C
#[test]
fn test_INC_and_DEC() {
    let mut cpu = CPU::test();
    cpu.execute(false, 0x0C);
    assert_eq!(0x1, cpu.registers.c);
    cpu.execute(false, 0x0D);
    assert_eq!(0x0, cpu.registers.c);
}

// INC C
#[test]
fn test_half_carry_on_INC() {
    let mut cpu = CPU::test();
    cpu.registers.c = 0xF;
    cpu.execute(false, 0x0C);
    assert_eq!(true, cpu.registers.f.half_carry);
}

// DEC C
#[test]
fn test_half_carry_on_DEC() {
    let mut cpu = CPU::test();
    cpu.registers.c = 0x10;
    cpu.execute(false, 0x0D);
    assert_eq!(true, cpu.registers.f.half_carry);
}

// ADC A, C
#[test]
fn tests_test_ADC() {
    let mut cpu = CPU::test();
    cpu.registers.f.carry = true;
    cpu.execute(false, 0x89);
    assert_eq!(0x1, cpu.registers.a);
}

// SBC A, C
#[test]
fn tests_test_SBC() {
    let mut cpu = CPU::test();
    cpu.registers.f.carry = true;
    cpu.execute(false, 0x99);
    assert_eq!(0xFF, cpu.registers.a);
}

// INC C, then ADD A, C
#[test]
fn tests_test_ADD() {
    let mut cpu = CPU::test();
    cpu.execute(false, 0x0C);
    cpu.execute(false, 0x81);
    assert_eq!(0x1, cpu.registers.a);
}

// ADD HL, BC
#[test]
fn tests_test_ADDHL() {
    let mut cpu = CPU::test();
    cpu.registers.set_bc(0x10);
    cpu.execute(false, 0x09);
    assert_eq!(0x10, cpu.registers.get_hl());
}

// INC C, then SUB A, C
#[test]
fn tests_test_SUB() {
    let mut cpu = CPU::test();
    cpu.execute(false, 0x0C);
    cpu.execute(false, 0x91);
    assert_eq!(0xFF, cpu.registers.a);
}

// RL C
#[test]
fn test_RL() {
    let mut cpu = CPU::test();
    cpu.registers.c = 0b1010_0101;
    cpu.execute(true, 0x11);
    assert_eq!(true, cpu.registers.f.carry);
    assert_eq!(0b0100_1010, cpu.registers.c);
}

// RR C
#[test]
fn test_RR() {
    let mut cpu = CPU::test();
    cpu.registers.c = 0b1010_0100;
    cpu.execute(true, 0x19);
    assert_eq!(false, cpu.registers.f.carry);
    assert_eq!(0b0101_0010, cpu.registers.c);
}

// RRC C
#[test]
fn test_RRC() {
    let mut cpu = CPU::test();
    cpu.registers.c = 0b1010_0100;
    cpu.execute(true, 0x09);
    assert_eq!(false, cpu.registers.f.carry);
    assert_eq!(0b0101_0010, cpu.registers.c);
}

// RLC C
#[test]
fn test_RLC() {
    let mut cpu = CPU::test();
    cpu.registers.c = 0b1010_0100;
    cpu.execute(true, 0x01);
    assert_eq!(true, cpu.registers.f.carry);
    assert_eq!(0b0100_1001, cpu.registers.c);
}

// INC BC
#[test]
fn test_INC16() {
    let mut cpu = CPU::test();
    cpu.execute(false, 0x03);
    assert_eq!(0x1, cpu.registers.get_bc());
}

// DEC BC
#[test]
fn test_DEC16() {
    let mut cpu = CPU::test();
    cpu.execute(false, 0x0B);
    assert_eq!(0xFFFF, cpu.registers.get_bc());
}

// ADD HL, BC
#[test]
fn old_tests_test_ADDHL() {
    let mut cpu = CPU::test();
    cpu.registers.set_bc(0x10);
    cpu.execute(false, 0x09);
    assert_eq!(0x10, cpu.registers.get_hl());
}
