//! The instruction set as a mathematical model: which opcodes decode to
//! which instructions, and what each instruction does to the registers.

use vstd::prelude::*;
use crate::registers::{FlagsRegister, Registers, lemma_split_then_join, pair_value};

verus! {

/// An 8-bit register operand.
pub enum Reg8 {
    A,
    B,
    C,
    D,
    E,
    H,
    L,
}

/// A 16-bit register pair operand.
pub enum Reg16 {
    BC,
    DE,
    HL,
}

/// The instructions that the CPU implements.
pub enum Instruction {
    /// INC r: increment an 8-bit register.
    Inc(Reg8),
    /// DEC r: decrement an 8-bit register.
    Dec(Reg8),
    /// INC rr: increment a register pair.
    Inc16(Reg16),
    /// DEC rr: decrement a register pair.
    Dec16(Reg16),
    /// ADD HL, rr: add a register pair to HL.
    AddHl(Reg16),
    /// ADD A, r.
    Add(Reg8),
    /// ADC A, r: add with the carry flag.
    Adc(Reg8),
    /// SUB A, r.
    Sub(Reg8),
    /// SBC A, r: subtract with the carry flag.
    Sbc(Reg8),
    /// AND A, r.
    And(Reg8),
    /// XOR A, r.
    Xor(Reg8),
    /// OR A, r.
    Or(Reg8),
    /// RLC r: rotate left, bit 7 into bit 0 and into the carry flag.
    Rlc(Reg8),
    /// RRC r: rotate right, bit 0 into bit 7 and into the carry flag.
    Rrc(Reg8),
    /// RL r: rotate left through the carry flag.
    Rl(Reg8),
    /// RR r: rotate right through the carry flag.
    Rr(Reg8),
    /// SWAP r: exchange the upper and lower four bits.
    Swap(Reg8),
}

/// The register that the three-bit register field `code` of an opcode
/// names; code 6 names the byte at HL, which no instruction here takes.
pub open spec fn reg8_of_code(code: u8) -> Option<Reg8> {
    if code == 0 {
        Some(Reg8::B)
    } else if code == 1 {
        Some(Reg8::C)
    } else if code == 2 {
        Some(Reg8::D)
    } else if code == 3 {
        Some(Reg8::E)
    } else if code == 4 {
        Some(Reg8::H)
    } else if code == 5 {
        Some(Reg8::L)
    } else if code == 7 {
        Some(Reg8::A)
    } else {
        None
    }
}

/// The register pair that the two-bit pair field `code` of an opcode
/// names; code 3 names SP, which no instruction here takes.
pub open spec fn reg16_of_code(code: u8) -> Option<Reg16> {
    if code == 0 {
        Some(Reg16::BC)
    } else if code == 1 {
        Some(Reg16::DE)
    } else if code == 2 {
        Some(Reg16::HL)
    } else {
        None
    }
}

/// The instruction of an opcode that follows the 0xCB prefix: bits 7..3
/// select the operation, bits 2..0 the register.
pub open spec fn decode_prefixed(opcode: u8) -> Option<Instruction> {
    let operation = opcode / 8;
    match reg8_of_code(opcode % 8) {
        Some(r) => if operation == 0 {
            Some(Instruction::Rlc(r))
        } else if operation == 1 {
            Some(Instruction::Rrc(r))
        } else if operation == 2 {
            Some(Instruction::Rl(r))
        } else if operation == 3 {
            Some(Instruction::Rr(r))
        } else if operation == 6 {
            Some(Instruction::Swap(r))
        } else {
            None
        },
        None => None,
    }
}

/// The instruction of an unprefixed opcode.
///
/// Below 0x40, bits 2..0 equal to 4 or 5 select INC r or DEC r on the
/// register in bits 5..3; bits 3..0 equal to 3, 9 or 0xB select INC rr,
/// ADD HL, rr or DEC rr on the pair in bits 5..4. From 0x80 to 0xB7, bits
/// 5..3 select ADD, ADC, SUB, SBC, AND, XOR or OR and bits 2..0 the register.
pub open spec fn decode_unprefixed(opcode: u8) -> Option<Instruction> {
    if opcode < 0x40 {
        if opcode % 8 == 4 {
            match reg8_of_code(opcode / 8) {
                Some(r) => Some(Instruction::Inc(r)),
                None => None,
            }
        } else if opcode % 8 == 5 {
            match reg8_of_code(opcode / 8) {
                Some(r) => Some(Instruction::Dec(r)),
                None => None,
            }
        } else if opcode % 16 == 3 {
            match reg16_of_code(opcode / 16) {
                Some(p) => Some(Instruction::Inc16(p)),
                None => None,
            }
        } else if opcode % 16 == 9 {
            match reg16_of_code(opcode / 16) {
                Some(p) => Some(Instruction::AddHl(p)),
                None => None,
            }
        } else if opcode % 16 == 11 {
            match reg16_of_code(opcode / 16) {
                Some(p) => Some(Instruction::Dec16(p)),
                None => None,
            }
        } else {
            None
        }
    } else if 0x80 <= opcode < 0xB8 {
        let operation = (opcode - 0x80) / 8;
        match reg8_of_code(opcode % 8) {
            Some(r) => if operation == 0 {
                Some(Instruction::Add(r))
            } else if operation == 1 {
                Some(Instruction::Adc(r))
            } else if operation == 2 {
                Some(Instruction::Sub(r))
            } else if operation == 3 {
                Some(Instruction::Sbc(r))
            } else if operation == 4 {
                Some(Instruction::And(r))
            } else if operation == 5 {
                Some(Instruction::Xor(r))
            } else {
                Some(Instruction::Or(r))
            },
            None => None,
        }
    } else {
        None
    }
}

/// The instruction of an opcode, after the 0xCB prefix when `prefixed`.
pub open spec fn decode(prefixed: bool, opcode: u8) -> Option<Instruction> {
    if prefixed {
        decode_prefixed(opcode)
    } else {
        decode_unprefixed(opcode)
    }
}

/// The flags register with the given four flags.
pub open spec fn flags(zero: bool, subtract: bool, half_carry: bool, carry: bool) -> FlagsRegister {
    FlagsRegister { zero, subtract, half_carry, carry }
}

/// The carry flag as a number, 0 or 1.
pub open spec fn carry_in(f: FlagsRegister) -> int {
    if f.carry {
        1
    } else {
        0
    }
}

/// ADD: result and flags of `a + value`.
pub open spec fn add_result(a: u8, value: u8) -> (u8, FlagsRegister) {
    let result = ((a + value) % 256) as u8;
    (result, flags(result == 0, false, a % 16 + value % 16 > 15, a + value > 255))
}

/// ADC: result and flags of `a + value + carry`.
pub open spec fn adc_result(a: u8, value: u8, f: FlagsRegister) -> (u8, FlagsRegister) {
    let sum = a + value + carry_in(f);
    let result = (sum % 256) as u8;
    (result, flags(result == 0, false, a % 16 + value % 16 + carry_in(f) > 15, sum > 255))
}

/// SUB: result and flags of `a - value`.
pub open spec fn sub_result(a: u8, value: u8) -> (u8, FlagsRegister) {
    let result = ((a - value) % 256) as u8;
    (result, flags(result == 0, true, a % 16 < value % 16, a < value))
}

/// SBC: result and flags of `a - value - carry`.
pub open spec fn sbc_result(a: u8, value: u8, f: FlagsRegister) -> (u8, FlagsRegister) {
    let result = ((a - value - carry_in(f)) % 256) as u8;
    (result, flags(
        result == 0,
        true,
        a % 16 < value % 16 + carry_in(f),
        a < value + carry_in(f),
    ))
}

/// AND: result and flags of `a & value`.
pub open spec fn and_result(a: u8, value: u8) -> (u8, FlagsRegister) {
    let result = a & value;
    (result, flags(result == 0, false, false, false))
}

/// XOR: result and flags of `a ^ value`.
pub open spec fn xor_result(a: u8, value: u8) -> (u8, FlagsRegister) {
    let result = a ^ value;
    (result, flags(result == 0, false, false, false))
}

/// OR: result and flags of `a | value`.
pub open spec fn or_result(a: u8, value: u8) -> (u8, FlagsRegister) {
    let result = a | value;
    (result, flags(result == 0, false, false, false))
}

/// INC r: carry is kept.
pub open spec fn inc_result(value: u8, f: FlagsRegister) -> (u8, FlagsRegister) {
    let result = ((value + 1) % 256) as u8;
    (result, flags(result == 0, false, value % 16 == 15, f.carry))
}

/// DEC r: carry is kept.
pub open spec fn dec_result(value: u8, f: FlagsRegister) -> (u8, FlagsRegister) {
    let result = ((value - 1) % 256) as u8;
    (result, flags(result == 0, true, value % 16 == 0, f.carry))
}

/// INC rr: the half carry from the low byte; carry is kept.
pub open spec fn inc16_result(value: u16, f: FlagsRegister) -> (u16, FlagsRegister) {
    let result = ((value + 1) % 65536) as u16;
    (result, flags(result == 0, false, value % 256 == 255, f.carry))
}

/// DEC rr: the half carry from the low byte; carry is kept.
pub open spec fn dec16_result(value: u16, f: FlagsRegister) -> (u16, FlagsRegister) {
    let result = ((value - 1) % 65536) as u16;
    (result, flags(result == 0, true, value % 256 == 0, f.carry))
}

/// ADD HL, rr: zero is kept; the half carry is the carry out of the low
/// twelve bits.
pub open spec fn add_hl_result(hl: u16, value: u16, f: FlagsRegister) -> (u16, FlagsRegister) {
    let result = ((hl + value) % 65536) as u16;
    (result, flags(f.zero, false, hl % 4096 + value % 4096 > 4095, hl + value > 65535))
}

/// SWAP: the upper and lower four bits exchanged.
pub open spec fn swap_result(value: u8) -> (u8, FlagsRegister) {
    let result = ((value % 16) * 16 + value / 16) as u8;
    (result, flags(result == 0, false, false, false))
}

/// RLC: rotate left; bit 7 goes to bit 0 and to the carry flag.
pub open spec fn rlc_result(value: u8) -> (u8, FlagsRegister) {
    let result = ((value * 2) % 256 + value / 128) as u8;
    (result, flags(result == 0, false, false, value >= 128))
}

/// RRC: rotate right; bit 0 goes to bit 7 and to the carry flag.
pub open spec fn rrc_result(value: u8) -> (u8, FlagsRegister) {
    let result = (value / 2 + (value % 2) * 128) as u8;
    (result, flags(result == 0, false, false, value % 2 == 1))
}

/// RL: rotate left through the carry flag.
pub open spec fn rl_result(value: u8, f: FlagsRegister) -> (u8, FlagsRegister) {
    let result = ((value * 2) % 256 + carry_in(f)) as u8;
    (result, flags(result == 0, false, false, value >= 128))
}

/// RR: rotate right through the carry flag.
pub open spec fn rr_result(value: u8, f: FlagsRegister) -> (u8, FlagsRegister) {
    let result = (value / 2 + carry_in(f) * 128) as u8;
    (result, flags(result == 0, false, false, value % 2 == 1))
}

/// The value of an 8-bit register.
pub open spec fn read8(r: Registers, target: Reg8) -> u8 {
    match target {
        Reg8::A => r.a,
        Reg8::B => r.b,
        Reg8::C => r.c,
        Reg8::D => r.d,
        Reg8::E => r.e,
        Reg8::H => r.h,
        Reg8::L => r.l,
    }
}

/// `r` with an 8-bit register replaced by `value`.
pub open spec fn write8(r: Registers, target: Reg8, value: u8) -> Registers {
    match target {
        Reg8::A => Registers { a: value, ..r },
        Reg8::B => Registers { b: value, ..r },
        Reg8::C => Registers { c: value, ..r },
        Reg8::D => Registers { d: value, ..r },
        Reg8::E => Registers { e: value, ..r },
        Reg8::H => Registers { h: value, ..r },
        Reg8::L => Registers { l: value, ..r },
    }
}

/// The value of a register pair.
pub open spec fn read16(r: Registers, pair: Reg16) -> u16 {
    match pair {
        Reg16::BC => pair_value(r.b, r.c),
        Reg16::DE => pair_value(r.d, r.e),
        Reg16::HL => pair_value(r.h, r.l),
    }
}

/// `r` with a register pair replaced by `value`.
pub open spec fn write16(r: Registers, pair: Reg16, value: u16) -> Registers {
    match pair {
        Reg16::BC => r.with_bc(value),
        Reg16::DE => r.with_de(value),
        Reg16::HL => r.with_hl(value),
    }
}

/// `r` with the flags replaced by `f`.
pub open spec fn with_flags(r: Registers, f: FlagsRegister) -> Registers {
    Registers { f, ..r }
}

/// Writes an 8-bit result and its flags into `target`.
pub open spec fn store8(r: Registers, target: Reg8, outcome: (u8, FlagsRegister)) -> Registers {
    with_flags(write8(r, target, outcome.0), outcome.1)
}

/// Writes a 16-bit result and its flags into `pair`.
pub open spec fn store16(r: Registers, pair: Reg16, outcome: (u16, FlagsRegister)) -> Registers {
    with_flags(write16(r, pair, outcome.0), outcome.1)
}

/// The registers after `instruction` runs on `r`.
pub open spec fn apply(instruction: Instruction, r: Registers) -> Registers {
    match instruction {
        Instruction::Inc(t) => store8(r, t, inc_result(read8(r, t), r.f)),
        Instruction::Dec(t) => store8(r, t, dec_result(read8(r, t), r.f)),
        Instruction::Inc16(p) => store16(r, p, inc16_result(read16(r, p), r.f)),
        Instruction::Dec16(p) => store16(r, p, dec16_result(read16(r, p), r.f)),
        Instruction::AddHl(p) => store16(
            r,
            Reg16::HL,
            add_hl_result(read16(r, Reg16::HL), read16(r, p), r.f),
        ),
        Instruction::Add(t) => store8(r, Reg8::A, add_result(r.a, read8(r, t))),
        Instruction::Adc(t) => store8(r, Reg8::A, adc_result(r.a, read8(r, t), r.f)),
        Instruction::Sub(t) => store8(r, Reg8::A, sub_result(r.a, read8(r, t))),
        Instruction::Sbc(t) => store8(r, Reg8::A, sbc_result(r.a, read8(r, t), r.f)),
        Instruction::And(t) => store8(r, Reg8::A, and_result(r.a, read8(r, t))),
        Instruction::Xor(t) => store8(r, Reg8::A, xor_result(r.a, read8(r, t))),
        Instruction::Or(t) => store8(r, Reg8::A, or_result(r.a, read8(r, t))),
        Instruction::Rlc(t) => store8(r, t, rlc_result(read8(r, t))),
        Instruction::Rrc(t) => store8(r, t, rrc_result(read8(r, t))),
        Instruction::Rl(t) => store8(r, t, rl_result(read8(r, t), r.f)),
        Instruction::Rr(t) => store8(r, t, rr_result(read8(r, t), r.f)),
        Instruction::Swap(t) => store8(r, t, swap_result(read8(r, t))),
    }
}

/// The value that `instruction` writes, read back from the registers after
/// it runs on `r`.
pub open spec fn result_value(instruction: Instruction, r: Registers) -> int {
    let after = apply(instruction, r);
    match instruction {
        Instruction::Inc(t) => read8(after, t) as int,
        Instruction::Dec(t) => read8(after, t) as int,
        Instruction::Inc16(p) => read16(after, p) as int,
        Instruction::Dec16(p) => read16(after, p) as int,
        Instruction::AddHl(_) => read16(after, Reg16::HL) as int,
        Instruction::Add(_) => after.a as int,
        Instruction::Adc(_) => after.a as int,
        Instruction::Sub(_) => after.a as int,
        Instruction::Sbc(_) => after.a as int,
        Instruction::And(_) => after.a as int,
        Instruction::Xor(_) => after.a as int,
        Instruction::Or(_) => after.a as int,
        Instruction::Rlc(t) => read8(after, t) as int,
        Instruction::Rrc(t) => read8(after, t) as int,
        Instruction::Rl(t) => read8(after, t) as int,
        Instruction::Rr(t) => read8(after, t) as int,
        Instruction::Swap(t) => read8(after, t) as int,
    }
}

/// Whether `instruction` writes the 8-bit register `t`, alone or as half of
/// a pair.
pub open spec fn writes(instruction: Instruction, t: Reg8) -> bool {
    match instruction {
        Instruction::Inc(d) => d == t,
        Instruction::Dec(d) => d == t,
        Instruction::Inc16(p) => in_pair(p, t),
        Instruction::Dec16(p) => in_pair(p, t),
        Instruction::AddHl(_) => in_pair(Reg16::HL, t),
        Instruction::Rlc(d) => d == t,
        Instruction::Rrc(d) => d == t,
        Instruction::Rl(d) => d == t,
        Instruction::Rr(d) => d == t,
        Instruction::Swap(d) => d == t,
        _ => t == Reg8::A,
    }
}

/// Whether `t` is one of the two halves of `pair`.
pub open spec fn in_pair(pair: Reg16, t: Reg8) -> bool {
    match pair {
        Reg16::BC => t == Reg8::B || t == Reg8::C,
        Reg16::DE => t == Reg8::D || t == Reg8::E,
        Reg16::HL => t == Reg8::H || t == Reg8::L,
    }
}

/// An instruction changes no register but the ones it writes and the
/// flags.
pub proof fn lemma_only_destination_changes(instruction: Instruction, r: Registers, t: Reg8)
    requires
        !writes(instruction, t),
    ensures
        read8(apply(instruction, r), t) == read8(r, t),
{
    match instruction {
        Instruction::Inc(_) => {},
        Instruction::Dec(_) => {},
        Instruction::Inc16(_) => {},
        Instruction::Dec16(_) => {},
        Instruction::AddHl(_) => {},
        Instruction::Add(_) => {},
        Instruction::Adc(_) => {},
        Instruction::Sub(_) => {},
        Instruction::Sbc(_) => {},
        Instruction::And(_) => {},
        Instruction::Xor(_) => {},
        Instruction::Or(_) => {},
        Instruction::Rlc(_) => {},
        Instruction::Rrc(_) => {},
        Instruction::Rl(_) => {},
        Instruction::Rr(_) => {},
        Instruction::Swap(_) => {},
    }
}

/// The zero flag is set exactly when the result is 0, for every instruction
/// but ADD HL, which leaves the zero flag as it was.
pub proof fn lemma_zero_flag_tells_zero_result(instruction: Instruction, r: Registers)
    requires
        !(instruction is AddHl),
    ensures
        apply(instruction, r).f.zero == (result_value(instruction, r) == 0),
{
    match instruction {
        Instruction::Inc(_) => {},
        Instruction::Dec(_) => {},
        Instruction::Inc16(_) => {},
        Instruction::Dec16(_) => {},
        Instruction::AddHl(_) => {},
        Instruction::Add(_) => {},
        Instruction::Adc(_) => {},
        Instruction::Sub(_) => {},
        Instruction::Sbc(_) => {},
        Instruction::And(_) => {},
        Instruction::Xor(_) => {},
        Instruction::Or(_) => {},
        Instruction::Rlc(_) => {},
        Instruction::Rrc(_) => {},
        Instruction::Rl(_) => {},
        Instruction::Rr(_) => {},
        Instruction::Swap(_) => {},
    }
}

/// The subtract flag is set exactly by the subtractions: SUB, SBC, DEC and
/// DEC rr.
pub proof fn lemma_subtract_flag_marks_subtraction(instruction: Instruction, r: Registers)
    ensures
        apply(instruction, r).f.subtract == (instruction is Sub || instruction is Sbc
            || instruction is Dec || instruction is Dec16),
{
}

/// The carry flag tells whether the arithmetic overflowed a byte (a word for
/// ADD HL) or borrowed; the logical operations and SWAP clear it; the
/// rotations set it to the bit rotated out; INC and DEC keep it.
pub proof fn lemma_carry_flag_tells_overflow(
    a: u8,
    value: u8,
    f: FlagsRegister,
    hl: u16,
    word: u16,
)
    ensures
        add_result(a, value).1.carry == (a + value > 0xFF),
        adc_result(a, value, f).1.carry == (a + value + (if f.carry {
            1int
        } else {
            0
        }) > 0xFF),
        sub_result(a, value).1.carry == (a < value),
        sbc_result(a, value, f).1.carry == (a < value + (if f.carry {
            1int
        } else {
            0
        })),
        add_hl_result(hl, word, f).1.carry == (hl + word > 0xFFFF),
        !and_result(a, value).1.carry,
        !xor_result(a, value).1.carry,
        !or_result(a, value).1.carry,
        !swap_result(value).1.carry,
        rlc_result(value).1.carry == (value >= 0x80),
        rl_result(value, f).1.carry == (value >= 0x80),
        rrc_result(value).1.carry == (value % 2 == 1),
        rr_result(value, f).1.carry == (value % 2 == 1),
        inc_result(value, f).1.carry == f.carry,
        dec_result(value, f).1.carry == f.carry,
        inc16_result(word, f).1.carry == f.carry,
        dec16_result(word, f).1.carry == f.carry,
{
}

/// With the carry flag clear, ADC computes what ADD computes, flags
/// included, and SBC what SUB computes.
pub proof fn lemma_clear_carry_adds_and_subtracts_plainly(a: u8, value: u8, f: FlagsRegister)
    requires
        !f.carry,
    ensures
        adc_result(a, value, f) == add_result(a, value),
        sbc_result(a, value, f) == sub_result(a, value),
{
}

/// The half-carry flag tells whether the lower four bits carried into, or
/// borrowed from, the upper four bits, for ADD, ADC, SUB, SBC, INC and DEC,
/// and whether the lower twelve bits carried for ADD HL; the logical
/// operations, the rotations and SWAP clear it. INC rr and DEC rr take it
/// from the low byte, which the law does not cover.
pub proof fn lemma_half_carry_tells_nibble_overflow(instruction: Instruction, r: Registers)
    requires
        !(instruction is Inc16 || instruction is Dec16),
    ensures
        apply(instruction, r).f.half_carry == (match instruction {
            Instruction::Add(t) => r.a % 16 + read8(r, t) % 16 > 15,
            Instruction::Adc(t) => r.a % 16 + read8(r, t) % 16 + (if r.f.carry {
                1int
            } else {
                0
            }) > 15,
            Instruction::Sub(t) => r.a % 16 < read8(r, t) % 16,
            Instruction::Sbc(t) => r.a % 16 < read8(r, t) % 16 + (if r.f.carry {
                1int
            } else {
                0
            }),
            Instruction::AddHl(p) => read16(r, Reg16::HL) % 4096 + read16(r, p) % 4096 > 4095,
            Instruction::Inc(t) => read8(r, t) % 16 + 1 > 15,
            Instruction::Dec(t) => read8(r, t) % 16 < 1,
            _ => false,
        }),
{
}

/// DEC undoes INC, and INC undoes DEC, on an 8-bit register.
pub proof fn lemma_dec_undoes_inc(t: Reg8, r: Registers)
    ensures
        read8(apply(Instruction::Dec(t), apply(Instruction::Inc(t), r)), t) == read8(r, t),
        read8(apply(Instruction::Inc(t), apply(Instruction::Dec(t), r)), t) == read8(r, t),
{
}

/// DEC rr undoes INC rr, and INC rr undoes DEC rr, on a register pair.
pub proof fn lemma_dec16_undoes_inc16(p: Reg16, r: Registers)
    ensures
        read16(apply(Instruction::Dec16(p), apply(Instruction::Inc16(p), r)), p) == read16(r, p),
        read16(apply(Instruction::Inc16(p), apply(Instruction::Dec16(p), r)), p) == read16(r, p),
{
    let v = read16(r, p);
    let up = inc16_result(v, r.f);
    let down = dec16_result(v, r.f);
    assert(((((((v + 1) % 65536) as u16) - 1) % 65536) as u16 == v)
        && ((((((v - 1) % 65536) as u16) + 1) % 65536) as u16 == v)) by (bit_vector);
    lemma_read16_after_store16(r, p, up);
    lemma_read16_after_store16(r, p, down);
    let r1 = store16(r, p, up);
    let r2 = store16(r, p, down);
    lemma_read16_after_store16(r1, p, dec16_result(up.0, r1.f));
    lemma_read16_after_store16(r2, p, inc16_result(down.0, r2.f));
}

/// Reading a register pair after storing into it gives the value stored.
proof fn lemma_read16_after_store16(r: Registers, p: Reg16, outcome: (u16, FlagsRegister))
    ensures
        read16(store16(r, p, outcome), p) == outcome.0,
{
    lemma_split_then_join(outcome.0);
}

/// Reading an 8-bit register after writing it gives the value written.
proof fn lemma_read8_after_write8(r: Registers, t: Reg8, value: u8)
    ensures
        read8(write8(r, t, value), t) == value,
{
}

/// On values: SWAP undoes SWAP, RRC undoes RLC and RLC undoes RRC, RR undoes
/// RL and RL undoes RR, carry flag included.
pub proof fn lemma_rotations_undo_each_other(value: u8, f: FlagsRegister)
    ensures
        swap_result(swap_result(value).0).0 == value,
        rrc_result(rlc_result(value).0).0 == value,
        rlc_result(rrc_result(value).0).0 == value,
        rr_result(rl_result(value, f).0, rl_result(value, f).1).0 == value,
        rr_result(rl_result(value, f).0, rl_result(value, f).1).1.carry == f.carry,
        rl_result(rr_result(value, f).0, rr_result(value, f).1).0 == value,
        rl_result(rr_result(value, f).0, rr_result(value, f).1).1.carry == f.carry,
{
    let v = value;
    let c: u8 = if f.carry {
        1
    } else {
        0
    };
    let swapped = ((v % 16) * 16 + v / 16) as u8;
    let left = ((v * 2) % 256 + v / 128) as u8;
    let right = (v / 2 + (v % 2) * 128) as u8;
    let left_through = ((v * 2) % 256 + c) as u8;
    let right_through = (v / 2 + c * 128) as u8;
    let out_left: u8 = if v >= 128 {
        1
    } else {
        0
    };
    let out_right: u8 = if v % 2 == 1 {
        1
    } else {
        0
    };
    assert(c <= 1 && out_left == (if v >= 128 { 1u8 } else { 0u8 }) && out_right == (if v % 2
        == 1 { 1u8 } else { 0u8 }) && swapped == ((v % 16) * 16 + v / 16) as u8 && left == ((v
        * 2) % 256 + v / 128) as u8 && right == (v / 2 + (v % 2) * 128) as u8 && left_through
        == ((v * 2) % 256 + c) as u8 && right_through == (v / 2 + c * 128) as u8 ==> {
        &&& ((swapped % 16) * 16 + swapped / 16) as u8 == v
        &&& (left / 2 + (left % 2) * 128) as u8 == v
        &&& ((right * 2) % 256 + right / 128) as u8 == v
        &&& (left_through / 2 + out_left * 128) as u8 == v
        &&& ((right_through * 2) % 256 + out_right) as u8 == v
        &&& (left_through % 2 == 1) == (c == 1)
        &&& (right_through >= 128) == (c == 1)
    }) by (bit_vector);
}

/// SWAP twice gives back the value.
pub proof fn lemma_swap_twice(t: Reg8, r: Registers)
    ensures
        read8(apply(Instruction::Swap(t), apply(Instruction::Swap(t), r)), t) == read8(r, t),
{
    let v = read8(r, t);
    let once = swap_result(v).0;
    lemma_rotations_undo_each_other(v, r.f);
    lemma_read8_after_write8(r, t, once);
    lemma_read8_after_write8(store8(r, t, swap_result(v)), t, swap_result(once).0);
}

/// RRC undoes RLC, and RLC undoes RRC.
pub proof fn lemma_rrc_undoes_rlc(t: Reg8, r: Registers)
    ensures
        read8(apply(Instruction::Rrc(t), apply(Instruction::Rlc(t), r)), t) == read8(r, t),
        read8(apply(Instruction::Rlc(t), apply(Instruction::Rrc(t), r)), t) == read8(r, t),
{
    let v = read8(r, t);
    let left = rlc_result(v).0;
    let right = rrc_result(v).0;
    lemma_rotations_undo_each_other(v, r.f);
    lemma_read8_after_write8(r, t, left);
    lemma_read8_after_write8(r, t, right);
    lemma_read8_after_write8(store8(r, t, rlc_result(v)), t, rrc_result(left).0);
    lemma_read8_after_write8(store8(r, t, rrc_result(v)), t, rlc_result(right).0);
}

/// RR undoes RL, and RL undoes RR, the carry flag included.
pub proof fn lemma_rr_undoes_rl(t: Reg8, r: Registers)
    ensures
        read8(apply(Instruction::Rr(t), apply(Instruction::Rl(t), r)), t) == read8(r, t),
        apply(Instruction::Rr(t), apply(Instruction::Rl(t), r)).f.carry == r.f.carry,
        read8(apply(Instruction::Rl(t), apply(Instruction::Rr(t), r)), t) == read8(r, t),
        apply(Instruction::Rl(t), apply(Instruction::Rr(t), r)).f.carry == r.f.carry,
{
    let v = read8(r, t);
    let left = rl_result(v, r.f);
    let right = rr_result(v, r.f);
    lemma_rotations_undo_each_other(v, r.f);
    lemma_read8_after_write8(r, t, left.0);
    lemma_read8_after_write8(r, t, right.0);
    lemma_read8_after_write8(store8(r, t, left), t, rr_result(left.0, left.1).0);
    lemma_read8_after_write8(store8(r, t, right), t, rl_result(right.0, right.1).0);
}

/// ADD, ADC, SUB and SBC leave in A the sum or the difference of A and the
/// operand, with the incoming carry added or subtracted for ADC and SBC,
/// modulo 256; AND, XOR and OR leave in A the bitwise combination of A and
/// the operand.
pub proof fn lemma_accumulator_results(t: Reg8, r: Registers)
    ensures
        apply(Instruction::Add(t), r).a == (r.a + read8(r, t)) % 256,
        apply(Instruction::Adc(t), r).a == (r.a + read8(r, t) + (if r.f.carry {
            1int
        } else {
            0
        })) % 256,
        apply(Instruction::Sub(t), r).a == (r.a - read8(r, t)) % 256,
        apply(Instruction::Sbc(t), r).a == (r.a - read8(r, t) - (if r.f.carry {
            1int
        } else {
            0
        })) % 256,
        apply(Instruction::And(t), r).a == r.a & read8(r, t),
        apply(Instruction::Xor(t), r).a == r.a ^ read8(r, t),
        apply(Instruction::Or(t), r).a == r.a | read8(r, t),
{
}

/// INC and DEC step an 8-bit register by one, modulo 256, whatever the
/// flags.
pub proof fn lemma_inc_dec_results(t: Reg8, r: Registers)
    ensures
        read8(apply(Instruction::Inc(t), r), t) == (read8(r, t) + 1) % 256,
        read8(apply(Instruction::Dec(t), r), t) == (read8(r, t) - 1) % 256,
{
    lemma_read8_after_write8(r, t, inc_result(read8(r, t), r.f).0);
    lemma_read8_after_write8(r, t, dec_result(read8(r, t), r.f).0);
}

/// INC rr and DEC rr step a register pair by one, modulo 65536, and ADD HL
/// leaves in HL the sum of HL and the pair, modulo 65536, whatever the
/// flags.
pub proof fn lemma_pair_results(p: Reg16, r: Registers)
    ensures
        read16(apply(Instruction::Inc16(p), r), p) == (read16(r, p) + 1) % 65536,
        read16(apply(Instruction::Dec16(p), r), p) == (read16(r, p) - 1) % 65536,
        read16(apply(Instruction::AddHl(p), r), Reg16::HL) == (read16(r, Reg16::HL) + read16(r, p))
            % 65536,
{
    lemma_read16_after_store16(r, p, inc16_result(read16(r, p), r.f));
    lemma_read16_after_store16(r, p, dec16_result(read16(r, p), r.f));
    lemma_read16_after_store16(
        r,
        Reg16::HL,
        add_hl_result(read16(r, Reg16::HL), read16(r, p), r.f),
    );
}

/// On a value `v` and an incoming carry `c` (0 or 1): RLC gives
/// `v << 1 | v >> 7`, RRC `v >> 1 | v << 7`, RL `v << 1 | c`, RR
/// `v >> 1 | c << 7` and SWAP `v << 4 | v >> 4`, within a byte.
pub proof fn lemma_shift_results(value: u8, f: FlagsRegister)
    ensures
        rlc_result(value).0 == (value << 1u8) | (value >> 7u8),
        rrc_result(value).0 == (value >> 1u8) | (value << 7u8),
        rl_result(value, f).0 == (value << 1u8) | (if f.carry {
            1u8
        } else {
            0u8
        }),
        rr_result(value, f).0 == (value >> 1u8) | ((if f.carry {
            1u8
        } else {
            0u8
        }) << 7u8),
        swap_result(value).0 == (value << 4u8) | (value >> 4u8),
{
    let v = value;
    let c: u8 = if f.carry {
        1
    } else {
        0
    };
    assert(((v << 1u8) | (v >> 7u8) == ((v * 2) % 256 + v / 128) as u8)
        && ((v >> 1u8) | (v << 7u8) == (v / 2 + (v % 2) * 128) as u8)
        && (c <= 1 ==> (v << 1u8) | c == ((v * 2) % 256 + c) as u8)
        && (c <= 1 ==> (v >> 1u8) | (c << 7u8) == (v / 2 + c * 128) as u8)
        && ((v << 4u8) | (v >> 4u8) == ((v % 16) * 16 + v / 16) as u8)) by (bit_vector);
}

/// RLC, RRC, RL, RR and SWAP write into their register the values that
/// `lemma_shift_results` gives.
pub proof fn lemma_shift_instruction_results(t: Reg8, r: Registers)
    ensures
        read8(apply(Instruction::Rlc(t), r), t) == (read8(r, t) << 1u8) | (read8(r, t) >> 7u8),
        read8(apply(Instruction::Rrc(t), r), t) == (read8(r, t) >> 1u8) | (read8(r, t) << 7u8),
        read8(apply(Instruction::Rl(t), r), t) == (read8(r, t) << 1u8) | (if r.f.carry {
            1u8
        } else {
            0u8
        }),
        read8(apply(Instruction::Rr(t), r), t) == (read8(r, t) >> 1u8) | ((if r.f.carry {
            1u8
        } else {
            0u8
        }) << 7u8),
        read8(apply(Instruction::Swap(t), r), t) == (read8(r, t) << 4u8) | (read8(r, t) >> 4u8),
{
    let v = read8(r, t);
    lemma_shift_results(v, r.f);
    lemma_read8_after_write8(r, t, rlc_result(v).0);
    lemma_read8_after_write8(r, t, rrc_result(v).0);
    lemma_read8_after_write8(r, t, rl_result(v, r.f).0);
    lemma_read8_after_write8(r, t, rr_result(v, r.f).0);
    lemma_read8_after_write8(r, t, swap_result(v).0);
}

/// After each instruction the carry flag tells whether the arithmetic
/// overflowed a byte (a word for ADD HL) or borrowed, the incoming carry
/// counted for ADC and SBC; AND, XOR, OR and SWAP clear it; the rotations
/// set it to the bit rotated out; INC, DEC, INC rr and DEC rr keep it.
pub proof fn lemma_carry_flag_after_instruction(t: Reg8, p: Reg16, r: Registers)
    ensures
        apply(Instruction::Add(t), r).f.carry == (r.a + read8(r, t) > 0xFF),
        apply(Instruction::Adc(t), r).f.carry == (r.a + read8(r, t) + (if r.f.carry {
            1int
        } else {
            0
        }) > 0xFF),
        apply(Instruction::Sub(t), r).f.carry == (r.a < read8(r, t)),
        apply(Instruction::Sbc(t), r).f.carry == (r.a < read8(r, t) + (if r.f.carry {
            1int
        } else {
            0
        })),
        apply(Instruction::AddHl(p), r).f.carry == (read16(r, Reg16::HL) + read16(r, p) > 0xFFFF),
        !apply(Instruction::And(t), r).f.carry,
        !apply(Instruction::Xor(t), r).f.carry,
        !apply(Instruction::Or(t), r).f.carry,
        !apply(Instruction::Swap(t), r).f.carry,
        apply(Instruction::Rlc(t), r).f.carry == (read8(r, t) & 0x80u8 == 0x80u8),
        apply(Instruction::Rl(t), r).f.carry == (read8(r, t) & 0x80u8 == 0x80u8),
        apply(Instruction::Rrc(t), r).f.carry == (read8(r, t) & 1u8 == 1u8),
        apply(Instruction::Rr(t), r).f.carry == (read8(r, t) & 1u8 == 1u8),
        apply(Instruction::Inc(t), r).f.carry == r.f.carry,
        apply(Instruction::Dec(t), r).f.carry == r.f.carry,
        apply(Instruction::Inc16(p), r).f.carry == r.f.carry,
        apply(Instruction::Dec16(p), r).f.carry == r.f.carry,
{
    let v = read8(r, t);
    assert(((v & 0x80u8 == 0x80u8) == (v >= 128))
        && ((v & 1u8 == 1u8) == (v % 2 == 1))) by (bit_vector);
}

/// The register that each three-bit register code names, in the order B,
/// C, D, E, H, L, (HL), A; codes 6 and 8 and above name none.
pub proof fn lemma_register_codes(r: Registers, code: u8)
    ensures
        code < 8 && code != 6 ==> reg8_of_code(code) is Some && read8(
            r,
            reg8_of_code(code).unwrap(),
        ) == seq![r.b, r.c, r.d, r.e, r.h, r.l, 0u8, r.a][code as int],
        code == 6 || code >= 8 ==> reg8_of_code(code) is None,
        code < 3 ==> reg16_of_code(code) is Some && read16(r, reg16_of_code(code).unwrap())
            == seq![pair_value(r.b, r.c), pair_value(r.d, r.e), pair_value(r.h, r.l)][code as int],
        code >= 3 ==> reg16_of_code(code) is None,
{
}

/// The fields of an unprefixed opcode: with `x = op >> 6`, `y = (op >> 3) & 7`,
/// `z = op & 7` and `q`, `p` the bits 3 and 5..4, x = 0 holds INC r (z = 4)
/// and DEC r (z = 5) on register y, and INC rr (z = 3, q = 0), ADD HL, rr
/// (z = 1, q = 1) and DEC rr (z = 3, q = 1) on pair p; x = 2 holds ADD,
/// ADC, SUB, SBC, AND, XOR and OR (y from 0 to 6) on register z.
pub proof fn lemma_unprefixed_fields(op: u8)
    ensures
        op >> 6u8 == 0 && op & 7u8 == 4 ==> decode_unprefixed(op) == (match reg8_of_code(
            (op >> 3u8) & 7u8,
        ) {
            Some(r) => Some(Instruction::Inc(r)),
            None => None,
        }),
        op >> 6u8 == 0 && op & 7u8 == 5 ==> decode_unprefixed(op) == (match reg8_of_code(
            (op >> 3u8) & 7u8,
        ) {
            Some(r) => Some(Instruction::Dec(r)),
            None => None,
        }),
        op >> 6u8 == 0 && op & 0xFu8 == 3 ==> decode_unprefixed(op) == (match reg16_of_code(
            (op >> 4u8) & 3u8,
        ) {
            Some(p) => Some(Instruction::Inc16(p)),
            None => None,
        }),
        op >> 6u8 == 0 && op & 0xFu8 == 9 ==> decode_unprefixed(op) == (match reg16_of_code(
            (op >> 4u8) & 3u8,
        ) {
            Some(p) => Some(Instruction::AddHl(p)),
            None => None,
        }),
        op >> 6u8 == 0 && op & 0xFu8 == 0xB ==> decode_unprefixed(op) == (match reg16_of_code(
            (op >> 4u8) & 3u8,
        ) {
            Some(p) => Some(Instruction::Dec16(p)),
            None => None,
        }),
        op >> 6u8 == 0 && op & 7u8 != 4 && op & 7u8 != 5 && op & 0xFu8 != 3 && op & 0xFu8 != 9
            && op & 0xFu8 != 0xB ==> decode_unprefixed(op) is None,
        op >> 6u8 == 2 && (op >> 3u8) & 7u8 != 7 ==> decode_unprefixed(op) == (match reg8_of_code(
            op & 7u8,
        ) {
            Some(r) => Some(
                if (op >> 3u8) & 7u8 == 0 {
                    Instruction::Add(r)
                } else if (op >> 3u8) & 7u8 == 1 {
                    Instruction::Adc(r)
                } else if (op >> 3u8) & 7u8 == 2 {
                    Instruction::Sub(r)
                } else if (op >> 3u8) & 7u8 == 3 {
                    Instruction::Sbc(r)
                } else if (op >> 3u8) & 7u8 == 4 {
                    Instruction::And(r)
                } else if (op >> 3u8) & 7u8 == 5 {
                    Instruction::Xor(r)
                } else {
                    Instruction::Or(r)
                },
            ),
            None => None,
        }),
        op >> 6u8 == 1 || op >> 6u8 == 3 || op >> 3u8 == 0x17 ==> decode_unprefixed(op) is None,
{
    assert((op >> 6u8 == op / 64)
        && (op & 7u8 == op % 8)
        && (op & 0xFu8 == op % 16)
        && ((op >> 3u8) & 7u8 == (op / 8) % 8)
        && ((op >> 4u8) & 3u8 == (op / 16) % 4)
        && (op >> 3u8 == op / 8)) by (bit_vector);
}

/// The fields of an opcode after the 0xCB prefix: with `y = (op >> 3) & 7`
/// and `z = op & 7`, op < 0x40 holds RLC, RRC, RL, RR and SWAP (y = 0, 1,
/// 2, 3 and 6) on register z; nothing else decodes.
pub proof fn lemma_prefixed_fields(op: u8)
    ensures
        op >> 6u8 == 0 && ((op >> 3u8) & 7u8 <= 3 || (op >> 3u8) & 7u8 == 6) ==> decode_prefixed(op)
            == (match reg8_of_code(op & 7u8) {
            Some(r) => Some(
                if (op >> 3u8) & 7u8 == 0 {
                    Instruction::Rlc(r)
                } else if (op >> 3u8) & 7u8 == 1 {
                    Instruction::Rrc(r)
                } else if (op >> 3u8) & 7u8 == 2 {
                    Instruction::Rl(r)
                } else if (op >> 3u8) & 7u8 == 3 {
                    Instruction::Rr(r)
                } else {
                    Instruction::Swap(r)
                },
            ),
            None => None,
        }),
        op >> 6u8 != 0 || (op >> 3u8) & 7u8 == 4 || (op >> 3u8) & 7u8 == 5 || (op >> 3u8) & 7u8 == 7
            ==> decode_prefixed(op) is None,
{
    assert((op >> 6u8 == op / 64)
        && (op & 7u8 == op % 8)
        && ((op >> 3u8) & 7u8 == (op / 8) % 8)
        && (op >> 3u8 == op / 8)) by (bit_vector);
}

/// INC rr sets the half carry when the low byte carries into the high byte
/// and DEC rr when it borrows from it; ADD HL leaves the zero flag as it
/// was.
pub proof fn lemma_pair_instruction_flags(p: Reg16, r: Registers)
    ensures
        apply(Instruction::Inc16(p), r).f.half_carry == (read16(r, p) & 0xFFu16 == 0xFFu16),
        apply(Instruction::Dec16(p), r).f.half_carry == (read16(r, p) & 0xFFu16 == 0u16),
        apply(Instruction::AddHl(p), r).f.zero == r.f.zero,
{
    let v = read16(r, p);
    assert(((v & 0xFFu16 == 0xFFu16) == (v % 256 == 255))
        && ((v & 0xFFu16 == 0u16) == (v % 256 == 0))) by (bit_vector);
}

} // verus!