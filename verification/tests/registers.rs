use dmg_cpu::registers::{FlagsRegister, Registers};

fn clear_flags() -> FlagsRegister {
    FlagsRegister { zero: false, subtract: false, half_carry: false, carry: false }
}

#[test]
fn wide_registers() {
    let mut reg = Registers {
        a: 0x12,
        b: 0x34,
        c: 0x45,
        d: 0x56,
        e: 0x67,
        f: FlagsRegister { zero: false, subtract: false, half_carry: false, carry: false },
        h: 0x78,
        l: 0x89,
    };

    // Testing getting methods
    assert_eq!(reg.get_bc(), 0x3445);
    assert_eq!(reg.get_de(), 0x5667);
    assert_eq!(reg.get_hl(), 0x7889);

    reg.set_bc(16);
    reg.set_de(78);
    reg.set_hl(90);

    // Testing setting methods
    assert_eq!(reg.get_bc(), 16);
    assert_eq!(reg.get_de(), 78);
    assert_eq!(reg.get_hl(), 90);
}

#[test]
fn setting_a_pair_splits_it_into_its_bytes() {
    let mut reg = Registers { a: 1, b: 2, c: 3, d: 4, e: 5, f: clear_flags(), h: 6, l: 7 };
    reg.set_bc(0xABCD);
    assert_eq!((reg.b, reg.c), (0xAB, 0xCD));
    reg.set_de(0x0100);
    assert_eq!((reg.d, reg.e), (0x01, 0x00));
    reg.set_hl(0xFFFF);
    assert_eq!((reg.h, reg.l), (0xFF, 0xFF));
    assert_eq!(reg.a, 1);
}

#[test]
fn setting_one_pair_leaves_the_others() {
    let mut reg = Registers { a: 1, b: 2, c: 3, d: 4, e: 5, f: clear_flags(), h: 6, l: 7 };
    reg.set_de(0x1234);
    assert_eq!(reg.get_bc(), 0x0203);
    assert_eq!(reg.get_hl(), 0x0607);
    assert_eq!(reg.a, 1);
}

#[test]
fn setting_a_pair_to_its_own_value_changes_nothing() {
    let mut reg = Registers { a: 1, b: 0x9A, c: 0xBC, d: 4, e: 5, f: clear_flags(), h: 6, l: 7 };
    let bc = reg.get_bc();
    reg.set_bc(bc);
    assert_eq!((reg.b, reg.c), (0x9A, 0xBC));
}

#[test]
fn flags_to_byte() {
    let all = FlagsRegister { zero: true, subtract: true, half_carry: true, carry: true };
    assert_eq!(u8::from(all), 0xF0);
    assert_eq!(u8::from(clear_flags()), 0x00);
    let zero_only = FlagsRegister { zero: true, subtract: false, half_carry: false, carry: false };
    assert_eq!(u8::from(zero_only), 0x80);
    let sub_carry = FlagsRegister { zero: false, subtract: true, half_carry: false, carry: true };
    assert_eq!(u8::from(sub_carry), 0x50);
    let half = FlagsRegister { zero: false, subtract: false, half_carry: true, carry: false };
    assert_eq!(u8::from(half), 0x20);
}

#[test]
fn byte_to_flags() {
    let f = FlagsRegister::from(0xA5);
    assert!(f.zero);
    assert!(!f.subtract);
    assert!(f.half_carry);
    assert!(!f.carry);
    let f = FlagsRegister::from(0x5F);
    assert!(!f.zero);
    assert!(f.subtract);
    assert!(!f.half_carry);
    assert!(f.carry);
}

#[test]
fn flags_byte_round_trip() {
    for byte in 0..=255u8 {
        let f = FlagsRegister::from(byte);
        assert_eq!(u8::from(f), byte & 0xF0);
    }
    let f = FlagsRegister { zero: true, subtract: false, half_carry: true, carry: true };
    let back = FlagsRegister::from(u8::from(f));
    assert!(back.zero && !back.subtract && back.half_carry && back.carry);
}
