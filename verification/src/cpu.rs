//! The CPU: its registers, program counter and memory bus, and the
//! execution of single instructions.

use vstd::prelude::*;
use crate::instruction::{
    Reg8,
    add_hl_result,
    add_result,
    adc_result,
    and_result,
    apply,
    dec16_result,
    dec_result,
    decode,
    decode_prefixed,
    decode_unprefixed,
    inc16_result,
    inc_result,
    or_result,
    rl_result,
    rlc_result,
    rr_result,
    rrc_result,
    sbc_result,
    store8,
    sub_result,
    swap_result,
    with_flags,
    xor_result,
};
use crate::registers::{FlagsRegister, Registers, pair_value};

verus! {

/// The conditions under which a jump is taken.
enum JumpTest {
    NotZero,
    Zero,
    NotCarry,
    Carry,
    Always,
}

/// The memory that the CPU reads its instructions from.
struct MemoryBus {
    memory: [u8; 0xFFFF],
}

impl MemoryBus {
    fn read_byte(&self, address: u16) -> (byte: u8)
        requires
            address < 0xFFFF,
        ensures
            byte == self.memory@[address as int],
    {
        self.memory[address as usize]
    }
}

pub struct CPU {
    pub registers: Registers,
    pc: u16,
    bus: MemoryBus,
}

/// What a CPU holds: its registers, its program counter and the contents
/// of its memory.
pub ghost struct CpuState {
    pub registers: Registers,
    pub pc: u16,
    pub memory: Seq<u8>,
}

impl View for CPU {
    type V = CpuState;

    closed spec fn view(&self) -> CpuState {
        CpuState { registers: self.registers, pc: self.pc, memory: self.bus.memory@ }
    }
}

/// The address after `address`, wrapping at the end of the 16-bit space.
pub open spec fn next_address(address: u16) -> u16 {
    ((address + 1) % 0x10000) as u16
}

/// The registers with every byte 0 and every flag clear.
pub open spec fn cleared_registers() -> Registers {
    Registers {
        a: 0,
        b: 0,
        c: 0,
        d: 0,
        e: 0,
        f: FlagsRegister { zero: false, subtract: false, half_carry: false, carry: false },
        h: 0,
        l: 0,
    }
}

/// Whether the memory and the program counter are the same in both.
spec fn same_bus_and_pc(before: CPU, after: CPU) -> bool {
    &&& after.pc == before.pc
    &&& after.bus == before.bus
}

/// The 1 or 0 that stands for a flag.
fn bit_of(flag: bool) -> (bit: u8)
    ensures
        bit == (if flag {
            1u8
        } else {
            0u8
        }),
{
    if flag {
        1
    } else {
        0
    }
}

/// The low four bits of a byte are its remainder by 16.
proof fn lemma_low_nibble(x: u8)
    ensures
        x & 0xF == x % 16,
{
    assert(x & 0xFu8 == x % 16) by (bit_vector);
}

impl CPU {
    /// A CPU with cleared registers, the program counter at 0 and all
    /// memory 0.
    pub fn test() -> (cpu: Self)
        ensures
            cpu@.registers == cleared_registers(),
            cpu@.pc == 0,
            cpu@.memory == Seq::new(0xFFFF, |i: int| 0u8),
    {
        let cpu = CPU {
            pc: 0,
            bus: MemoryBus { memory: [0;0xFFFF] },
            registers: Registers {
                a: 0,
                b: 0,
                c: 0,
                d: 0,
                e: 0,
                f: FlagsRegister { zero: false, subtract: false, half_carry: false, carry: false },
                h: 0,
                l: 0,
            },
        };
        assert(cpu.bus.memory@ =~= Seq::new(0xFFFF, |i: int| 0u8));
        cpu
    }

    /// The registers.
    pub fn registers(&self) -> (registers: &Registers)
        ensures
            *registers == self@.registers,
    {
        &self.registers
    }

    /// Replaces the registers, leaving the program counter and the memory.
    pub fn set_registers(&mut self, registers: Registers)
        ensures
            final(self)@.registers == registers,
            final(self)@.pc == old(self)@.pc,
            final(self)@.memory == old(self)@.memory,
    {
        self.registers = registers;
    }

    /// Runs the instruction of an opcode that follows the 0xCB prefix and
    /// returns the program counter plus one, wrapping at the end of the
    /// 16-bit space; the program counter itself is left for the caller to
    /// move. With the prefix at the program counter, that address is the
    /// opcode byte after the prefix, not the next instruction.
    #[verifier::rlimit(60)]
    #[verifier::spinoff_prover]
    pub fn execute_cb_prefixed(&mut self, instruction: u8) -> (next_pc: u16)
        requires
            decode_prefixed(instruction) is Some,
        ensures
            final(self)@.registers == apply(
                decode_prefixed(instruction).unwrap(),
                old(self)@.registers,
            ),
            next_pc == next_address(old(self)@.pc),
            final(self)@.pc == old(self)@.pc,
            final(self)@.memory == old(self)@.memory,
    {
        proof {
            lemma_prefixed_opcodes(instruction);
        }
        match instruction {
            // RLC r8
            0x00 => {
                self.registers.b = self.rotate_left(self.registers.b);
                self.pc.wrapping_add(1)
            }
            0x01 => {
                self.registers.c = self.rotate_left(self.registers.c);
                self.pc.wrapping_add(1)
            }
            0x02 => {
                self.registers.d = self.rotate_left(self.registers.d);
                self.pc.wrapping_add(1)
            }
            0x03 => {
                self.registers.e = self.rotate_left(self.registers.e);
                self.pc.wrapping_add(1)
            }
            0x04 => {
                self.registers.h = self.rotate_left(self.registers.h);
                self.pc.wrapping_add(1)
            }
            0x05 => {
                self.registers.l = self.rotate_left(self.registers.l);
                self.pc.wrapping_add(1)
            }
            // 0x06 (RLC (HL)) is not implemented
            0x07 => {
                self.registers.a = self.rotate_left(self.registers.a);
                self.pc.wrapping_add(1)
            }
            // RRC r8
            0x08 => {
                self.registers.b = self.rotate_right(self.registers.b);
                self.pc.wrapping_add(1)
            }
            0x09 => {
                self.registers.c = self.rotate_right(self.registers.c);
                self.pc.wrapping_add(1)
            }
            0x0A => {
                self.registers.d = self.rotate_right(self.registers.d);
                self.pc.wrapping_add(1)
            }
            0x0B => {
                self.registers.e = self.rotate_right(self.registers.e);
                self.pc.wrapping_add(1)
            }
            0x0C => {
                self.registers.h = self.rotate_right(self.registers.h);
                self.pc.wrapping_add(1)
            }
            0x0D => {
                self.registers.l = self.rotate_right(self.registers.l);
                self.pc.wrapping_add(1)
            }
            // 0x0E (RRC (HL)) is not implemented
            0x0F => {
                self.registers.a = self.rotate_right(self.registers.a);
                self.pc.wrapping_add(1)
            }
            // RL r8
            0x10 => {
                self.registers.b = self.rotate_left_carry(self.registers.b);
                self.pc.wrapping_add(1)
            }
            0x11 => {
                self.registers.c = self.rotate_left_carry(self.registers.c);
                self.pc.wrapping_add(1)
            }
            0x12 => {
                self.registers.d = self.rotate_left_carry(self.registers.d);
                self.pc.wrapping_add(1)
            }
            0x13 => {
                self.registers.e = self.rotate_left_carry(self.registers.e);
                self.pc.wrapping_add(1)
            }
            0x14 => {
                self.registers.h = self.rotate_left_carry(self.registers.h);
                self.pc.wrapping_add(1)
            }
            0x15 => {
                self.registers.l = self.rotate_left_carry(self.registers.l);
                self.pc.wrapping_add(1)
            }
            // 0x16 (RL (HL)) is not implemented
            0x17 => {
                self.registers.a = self.rotate_left_carry(self.registers.a);
                self.pc.wrapping_add(1)
            }
            // RR r8
            0x18 => {
                self.registers.b = self.rotate_right_carry(self.registers.b);
                self.pc.wrapping_add(1)
            }
            0x19 => {
                self.registers.c = self.rotate_right_carry(self.registers.c);
                self.pc.wrapping_add(1)
            }
            0x1A => {
                self.registers.d = self.rotate_right_carry(self.registers.d);
                self.pc.wrapping_add(1)
            }
            0x1B => {
                self.registers.e = self.rotate_right_carry(self.registers.e);
                self.pc.wrapping_add(1)
            }
            0x1C => {
                self.registers.h = self.rotate_right_carry(self.registers.h);
                self.pc.wrapping_add(1)
            }
            0x1D => {
                self.registers.l = self.rotate_right_carry(self.registers.l);
                self.pc.wrapping_add(1)
            }
            // 0x1E (RR (HL)) is not implemented
            0x1F => {
                self.registers.a = self.rotate_right_carry(self.registers.a);
                self.pc.wrapping_add(1)
            }
            // SWAP r8
            0x30 => {
                self.registers.b = self.swap(self.registers.b);
                self.pc.wrapping_add(1)
            }
            0x31 => {
                self.registers.c = self.swap(self.registers.c);
                self.pc.wrapping_add(1)
            }
            0x32 => {
                self.registers.d = self.swap(self.registers.d);
                self.pc.wrapping_add(1)
            }
            0x33 => {
                self.registers.e = self.swap(self.registers.e);
                self.pc.wrapping_add(1)
            }
            0x34 => {
                self.registers.h = self.swap(self.registers.h);
                self.pc.wrapping_add(1)
            }
            0x35 => {
                self.registers.l = self.swap(self.registers.l);
                self.pc.wrapping_add(1)
            }
            // 0x36 (SWAP (HL)) is not implemented
            0x37 => {
                self.registers.a = self.swap(self.registers.a);
                self.pc.wrapping_add(1)
            }
            _ => {
                // `decode_prefixed` accepts no other opcode.
                proof {
                    assert(false);
                }
                self.pc.wrapping_add(1)
            }
        }
    }

    /// Runs the instruction of an opcode, one that follows the 0xCB prefix
    /// when `prefixed`, and returns the program counter plus one, wrapping
    /// at the end of the 16-bit space; the program counter itself is left
    /// for the caller to move. For a prefixed instruction whose prefix sits
    /// at the program counter, that address is the opcode byte after the
    /// prefix, not the next instruction.
    #[verifier::rlimit(60)]
    #[verifier::spinoff_prover]
    pub fn execute(&mut self, prefixed: bool, instruction: u8) -> (next_pc: u16)
        requires
            decode(prefixed, instruction) is Some,
        ensures
            final(self)@.registers == apply(
                decode(prefixed, instruction).unwrap(),
                old(self)@.registers,
            ),
            next_pc == next_address(old(self)@.pc),
            final(self)@.pc == old(self)@.pc,
            final(self)@.memory == old(self)@.memory,
    {
        if prefixed {
            return self.execute_cb_prefixed(instruction);
        }
        proof {
            lemma_unprefixed_opcodes(instruction);
        }
        match instruction {
            0x03 => {
                let value = self.increment_16(self.registers.get_bc());
                self.registers.set_bc(value);
                self.pc.wrapping_add(1)
            }
            0x04 => {
                self.registers.b = self.increment(self.registers.b);
                self.pc.wrapping_add(1)
            }
            0x05 => {
                self.registers.b = self.decrement(self.registers.b);
                self.pc.wrapping_add(1)
            }
            0x09 => {
                let value = self.add_hl(self.registers.get_bc());
                self.registers.set_hl(value);
                self.pc.wrapping_add(1)
            }
            0x13 => {
                let value = self.increment_16(self.registers.get_de());
                self.registers.set_de(value);
                self.pc.wrapping_add(1)
            }
            0x14 => {
                self.registers.d = self.increment(self.registers.d);
                self.pc.wrapping_add(1)
            }
            0x15 => {
                self.registers.d = self.decrement(self.registers.d);
                self.pc.wrapping_add(1)
            }
            0x19 => {
                let value = self.add_hl(self.registers.get_de());
                self.registers.set_hl(value);
                self.pc.wrapping_add(1)
            }
            0x23 => {
                let value = self.increment_16(self.registers.get_hl());
                self.registers.set_hl(value);
                self.pc.wrapping_add(1)
            }
            0x24 => {
                self.registers.h = self.increment(self.registers.h);
                self.pc.wrapping_add(1)
            }
            0x25 => {
                self.registers.h = self.decrement(self.registers.h);
                self.pc.wrapping_add(1)
            }
            0x29 => {
                let value = self.add_hl(self.registers.get_hl());
                self.registers.set_hl(value);
                self.pc.wrapping_add(1)
            }
            // 0x39 (ADD HL, SP) is not implemented
            0x0B => {
                let value = self.decrement_16(self.registers.get_bc());
                self.registers.set_bc(value);
                self.pc.wrapping_add(1)
            }
            0x0C => {
                self.registers.c = self.increment(self.registers.c);
                self.pc.wrapping_add(1)
            }
            0x0D => {
                self.registers.c = self.decrement(self.registers.c);
                self.pc.wrapping_add(1)
            }
            0x1B => {
                let value = self.decrement_16(self.registers.get_de());
                self.registers.set_de(value);
                self.pc.wrapping_add(1)
            }
            0x1C => {
                self.registers.e = self.increment(self.registers.e);
                self.pc.wrapping_add(1)
            }
            0x1D => {
                self.registers.e = self.decrement(self.registers.e);
                self.pc.wrapping_add(1)
            }
            0x2B => {
                let value = self.decrement_16(self.registers.get_hl());
                self.registers.set_hl(value);
                self.pc.wrapping_add(1)
            }
            0x2C => {
                self.registers.l = self.increment(self.registers.l);
                self.pc.wrapping_add(1)
            }
            0x2D => {
                self.registers.l = self.decrement(self.registers.l);
                self.pc.wrapping_add(1)
            }
            0x3C => {
                self.registers.a = self.increment(self.registers.a);
                self.pc.wrapping_add(1)
            }
            0x3D => {
                self.registers.a = self.decrement(self.registers.a);
                self.pc.wrapping_add(1)
            }
            // ADD A, r8
            0x80 => {
                self.registers.a = self.add(self.registers.b);
                self.pc.wrapping_add(1)
            }
            0x81 => {
                self.registers.a = self.add(self.registers.c);
                self.pc.wrapping_add(1)
            }
            0x82 => {
                self.registers.a = self.add(self.registers.d);
                self.pc.wrapping_add(1)
            }
            0x83 => {
                self.registers.a = self.add(self.registers.e);
                self.pc.wrapping_add(1)
            }
            0x84 => {
                self.registers.a = self.add(self.registers.h);
                self.pc.wrapping_add(1)
            }
            0x85 => {
                self.registers.a = self.add(self.registers.l);
                self.pc.wrapping_add(1)
            }
            // 0x86 (ADD A, (HL)) is not implemented
            0x87 => {
                self.registers.a = self.add(self.registers.a);
                self.pc.wrapping_add(1)
            }
            // ADC A, r8
            0x88 => {
                self.registers.a = self.add_carry(self.registers.b);
                self.pc.wrapping_add(1)
            }
            0x89 => {
                self.registers.a = self.add_carry(self.registers.c);
                self.pc.wrapping_add(1)
            }
            0x8A => {
                self.registers.a = self.add_carry(self.registers.d);
                self.pc.wrapping_add(1)
            }
            0x8B => {
                self.registers.a = self.add_carry(self.registers.e);
                self.pc.wrapping_add(1)
            }
            0x8C => {
                self.registers.a = self.add_carry(self.registers.h);
                self.pc.wrapping_add(1)
            }
            0x8D => {
                self.registers.a = self.add_carry(self.registers.l);
                self.pc.wrapping_add(1)
            }
            // 0x8E (ADC A, (HL)) is not implemented
            0x8F => {
                self.registers.a = self.add_carry(self.registers.a);
                self.pc.wrapping_add(1)
            }
            // SUB A, r8
            0x90 => {
                self.registers.a = self.subtract(self.registers.b);
                self.pc.wrapping_add(1)
            }
            0x91 => {
                self.registers.a = self.subtract(self.registers.c);
                self.pc.wrapping_add(1)
            }
            0x92 => {
                self.registers.a = self.subtract(self.registers.d);
                self.pc.wrapping_add(1)
            }
            0x93 => {
                self.registers.a = self.subtract(self.registers.e);
                self.pc.wrapping_add(1)
            }
            0x94 => {
                self.registers.a = self.subtract(self.registers.h);
                self.pc.wrapping_add(1)
            }
            0x95 => {
                self.registers.a = self.subtract(self.registers.l);
                self.pc.wrapping_add(1)
            }
            // 0x96 (SUB A, (HL)) is not implemented
            0x97 => {
                self.registers.a = self.subtract(self.registers.a);
                self.pc.wrapping_add(1)
            }
            // SBC A, r8
            0x98 => {
                self.registers.a = self.subtract_carry(self.registers.b);
                self.pc.wrapping_add(1)
            }
            0x99 => {
                self.registers.a = self.subtract_carry(self.registers.c);
                self.pc.wrapping_add(1)
            }
            0x9A => {
                self.registers.a = self.subtract_carry(self.registers.d);
                self.pc.wrapping_add(1)
            }
            0x9B => {
                self.registers.a = self.subtract_carry(self.registers.e);
                self.pc.wrapping_add(1)
            }
            0x9C => {
                self.registers.a = self.subtract_carry(self.registers.h);
                self.pc.wrapping_add(1)
            }
            0x9D => {
                self.registers.a = self.subtract_carry(self.registers.l);
                self.pc.wrapping_add(1)
            }
            // 0x9E (SBC A, (HL)) is not implemented
            0x9F => {
                self.registers.a = self.subtract_carry(self.registers.a);
                self.pc.wrapping_add(1)
            }
            // AND A, r8
            0xA0 => {
                self.registers.a = self.and(self.registers.b);
                self.pc.wrapping_add(1)
            }
            0xA1 => {
                self.registers.a = self.and(self.registers.c);
                self.pc.wrapping_add(1)
            }
            0xA2 => {
                self.registers.a = self.and(self.registers.d);
                self.pc.wrapping_add(1)
            }
            0xA3 => {
                self.registers.a = self.and(self.registers.e);
                self.pc.wrapping_add(1)
            }
            0xA4 => {
                self.registers.a = self.and(self.registers.h);
                self.pc.wrapping_add(1)
            }
            0xA5 => {
                self.registers.a = self.and(self.registers.l);
                self.pc.wrapping_add(1)
            }
            // 0xA6 (AND A, (HL)) is not implemented
            0xA7 => {
                self.registers.a = self.and(self.registers.a);
                self.pc.wrapping_add(1)
            }
            // XOR A, r8
            0xA8 => {
                self.registers.a = self.xor(self.registers.b);
                self.pc.wrapping_add(1)
            }
            0xA9 => {
                self.registers.a = self.xor(self.registers.c);
                self.pc.wrapping_add(1)
            }
            0xAA => {
                self.registers.a = self.xor(self.registers.d);
                self.pc.wrapping_add(1)
            }
            0xAB => {
                self.registers.a = self.xor(self.registers.e);
                self.pc.wrapping_add(1)
            }
            0xAC => {
                self.registers.a = self.xor(self.registers.h);
                self.pc.wrapping_add(1)
            }
            0xAD => {
                self.registers.a = self.xor(self.registers.l);
                self.pc.wrapping_add(1)
            }
            // 0xAE (XOR A, (HL)) is not implemented
            0xAF => {
                self.registers.a = self.xor(self.registers.a);
                self.pc.wrapping_add(1)
            }
            // OR A, r8
            0xB0 => {
                self.registers.a = self.or(self.registers.b);
                self.pc.wrapping_add(1)
            }
            0xB1 => {
                self.registers.a = self.or(self.registers.c);
                self.pc.wrapping_add(1)
            }
            0xB2 => {
                self.registers.a = self.or(self.registers.d);
                self.pc.wrapping_add(1)
            }
            0xB3 => {
                self.registers.a = self.or(self.registers.e);
                self.pc.wrapping_add(1)
            }
            0xB4 => {
                self.registers.a = self.or(self.registers.h);
                self.pc.wrapping_add(1)
            }
            0xB5 => {
                self.registers.a = self.or(self.registers.l);
                self.pc.wrapping_add(1)
            }
            // 0xB6 (OR A, (HL)) is not implemented
            0xB7 => {
                self.registers.a = self.or(self.registers.a);
                self.pc.wrapping_add(1)
            }
            _ => {
                // `decode_unprefixed` accepts no other opcode.
                proof {
                    assert(false);
                }
                self.pc.wrapping_add(1)
            }
        }
    }

    /// Fetches the instruction at the program counter, runs it and moves
    /// the program counter one byte on: past a one-byte instruction, but
    /// only onto the opcode byte of a prefixed one.
    fn step(&mut self)
        requires
            old(self).pc < 0xFFFF,
            fetches_prefix(old(self).bus.memory@, old(self).pc) ==> old(self).pc + 1 < 0xFFFF,
            decode(
                fetches_prefix(old(self).bus.memory@, old(self).pc),
                fetched_opcode(old(self).bus.memory@, old(self).pc),
            ) is Some,
        ensures
            final(self).registers == apply(
                decode(
                    fetches_prefix(old(self).bus.memory@, old(self).pc),
                    fetched_opcode(old(self).bus.memory@, old(self).pc),
                ).unwrap(),
                old(self).registers,
            ),
            final(self).pc == next_address(old(self).pc),
            final(self)@.memory == old(self)@.memory,
    {
        let mut instruction_byte: u8 = self.bus.read_byte(self.pc);
        let prefixed = instruction_byte == 0xCB;
        if prefixed {
            instruction_byte = self.bus.read_byte(self.pc + 1);
        }
        self.pc = self.execute(prefixed, instruction_byte);
    }

    /// The address a three-byte jump at the program counter leads to: its
    /// little-endian operand when the jump is taken, else the next
    /// instruction.
    fn jump(&self, should_jump: bool) -> (target: u16)
        requires
            should_jump ==> self.pc + 2 < 0xFFFF,
        ensures
            target == (if should_jump {
                pair_value(self.bus.memory@[self.pc + 2], self.bus.memory@[self.pc + 1])
            } else {
                ((self.pc + 3) % 0x10000) as u16
            }),
    {
        if should_jump {
            let least_significant_byte = self.bus.read_byte(self.pc + 1) as u16;
            let most_significant_byte = self.bus.read_byte(self.pc + 2) as u16;
            assert((most_significant_byte << 8u16) | least_significant_byte
                == most_significant_byte * 256 + least_significant_byte) by (bit_vector)
                requires
                    most_significant_byte < 256,
                    least_significant_byte < 256,
            ;
            (most_significant_byte << 8) | least_significant_byte
        } else {
            // Move program counter by 3 since jump is 3 bytes wide
            self.pc.wrapping_add(3)
        }
    }

    fn add(&mut self, value: u8) -> (new_value: u8)
        ensures
            (new_value, final(self).registers.f) == add_result(old(self).registers.a, value),
            final(self).registers == with_flags(old(self).registers, final(self).registers.f),
            same_bus_and_pc(*old(self), *final(self)),
    {
        let a = self.registers.a;
        let new_value = a.wrapping_add(value);
        let did_overflow = new_value < a;
        proof {
            lemma_low_nibble(a);
            lemma_low_nibble(value);
        }
        self.registers.f.zero = new_value == 0;
        self.registers.f.subtract = false;
        self.registers.f.carry = did_overflow;
        // If the lower nibble of the value and register a together result in a bigger value than 0xF
        // Then the addition caused a carry from the lower nibble to the upper nibble
        self.registers.f.half_carry = (self.registers.a & 0xF) + (value & 0xF) > 0xF;
        new_value
    }

    fn add_carry(&mut self, value: u8) -> (new_value: u8)
        ensures
            (new_value, final(self).registers.f) == adc_result(
                old(self).registers.a,
                value,
                old(self).registers.f,
            ),
            final(self).registers == with_flags(old(self).registers, final(self).registers.f),
            same_bus_and_pc(*old(self), *final(self)),
    {
        let a = self.registers.a;
        let carry = bit_of(self.registers.f.carry);
        let sum = a as u16 + value as u16 + carry as u16;
        assert(sum < 0x200 ==> (sum as u8) == sum % 256) by (bit_vector);
        let new_value = sum as u8;
        proof {
            lemma_low_nibble(a);
            lemma_low_nibble(value);
        }
        self.registers.f.zero = new_value == 0;
        self.registers.f.subtract = false;
        self.registers.f.carry = sum > 0xFF;
        // The carry out of the lower nibble counts the incoming carry too.
        self.registers.f.half_carry = (a & 0xF) + (value & 0xF) + carry > 0xF;
        new_value
    }

    fn add_hl(&mut self, value: u16) -> (new_value: u16)
        ensures
            (new_value, final(self).registers.f) == add_hl_result(
                pair_value(old(self).registers.h, old(self).registers.l),
                value,
                old(self).registers.f,
            ),
            final(self).registers == with_flags(old(self).registers, final(self).registers.f),
            same_bus_and_pc(*old(self), *final(self)),
    {
        let hl = self.registers.get_hl();
        let new_value = hl.wrapping_add(value);
        let did_overflow = new_value < hl;
        assert((value & 0xFFFu16 == value % 4096) && (hl & 0xFFFu16 == hl % 4096)) by (bit_vector);
        self.registers.f.subtract = false;
        self.registers.f.carry = did_overflow;
        self.registers.f.half_carry = (hl & 0xFFF) + (value & 0xFFF) > 0xFFF;
        new_value
    }

    fn subtract(&mut self, value: u8) -> (new_value: u8)
        ensures
            (new_value, final(self).registers.f) == sub_result(old(self).registers.a, value),
            final(self).registers == store8(
                old(self).registers,
                Reg8::A,
                sub_result(old(self).registers.a, value),
            ),
            same_bus_and_pc(*old(self), *final(self)),
    {
        let a = self.registers.a;
        let new_value = a.wrapping_sub(value);
        let did_borrow = a < value;
        proof {
            lemma_low_nibble(a);
            lemma_low_nibble(value);
        }
        self.registers.f.zero = new_value == 0;
        self.registers.f.subtract = true;
        self.registers.f.carry = did_borrow;
        self.registers.f.half_carry = (self.registers.a & 0xF) < (value & 0xF);
        self.registers.a = new_value;
        new_value
    }

    fn subtract_carry(&mut self, value: u8) -> (new_value: u8)
        ensures
            (new_value, final(self).registers.f) == sbc_result(
                old(self).registers.a,
                value,
                old(self).registers.f,
            ),
            final(self).registers == with_flags(old(self).registers, final(self).registers.f),
            same_bus_and_pc(*old(self), *final(self)),
    {
        let a = self.registers.a;
        let carry = bit_of(self.registers.f.carry);
        // The borrow is taken against the operand and the incoming carry together.
        let subtract_value = value as u16 + carry as u16;
        let new_value = a.wrapping_sub(value).wrapping_sub(carry);
        let did_borrow = (a as u16) < subtract_value;
        proof {
            lemma_low_nibble(a);
            lemma_low_nibble(value);
        }
        self.registers.f.zero = new_value == 0;
        self.registers.f.subtract = true;
        self.registers.f.carry = did_borrow;
        self.registers.f.half_carry = (a & 0xF) < (value & 0xF) + carry;
        new_value
    }

    fn increment(&mut self, value: u8) -> (new_value: u8)
        ensures
            (new_value, final(self).registers.f) == inc_result(value, old(self).registers.f),
            final(self).registers == with_flags(old(self).registers, final(self).registers.f),
            same_bus_and_pc(*old(self), *final(self)),
    {
        let new_value = value.wrapping_add(1);
        proof {
            lemma_low_nibble(value);
        }
        self.registers.f.zero = new_value == 0;
        self.registers.f.subtract = false;
        self.registers.f.half_carry = (value & 0xF) == 0xF;
        new_value
    }

    fn decrement(&mut self, value: u8) -> (new_value: u8)
        ensures
            (new_value, final(self).registers.f) == dec_result(value, old(self).registers.f),
            final(self).registers == with_flags(old(self).registers, final(self).registers.f),
            same_bus_and_pc(*old(self), *final(self)),
    {
        let new_value = value.wrapping_sub(1);
        proof {
            lemma_low_nibble(value);
        }
        self.registers.f.zero = new_value == 0;
        self.registers.f.subtract = true;
        self.registers.f.half_carry = (value & 0xF) == 0x0;
        new_value
    }

    fn increment_16(&mut self, value: u16) -> (new_value: u16)
        ensures
            (new_value, final(self).registers.f) == inc16_result(value, old(self).registers.f),
            final(self).registers == with_flags(old(self).registers, final(self).registers.f),
            same_bus_and_pc(*old(self), *final(self)),
    {
        let new_value = value.wrapping_add(1);
        assert(value & 0xFFu16 == value % 256) by (bit_vector);
        self.registers.f.zero = new_value == 0;
        self.registers.f.subtract = false;
        self.registers.f.half_carry = (value & 0xFF) == 0xFF;
        new_value
    }

    fn decrement_16(&mut self, value: u16) -> (new_value: u16)
        ensures
            (new_value, final(self).registers.f) == dec16_result(value, old(self).registers.f),
            final(self).registers == with_flags(old(self).registers, final(self).registers.f),
            same_bus_and_pc(*old(self), *final(self)),
    {
        let new_value = value.wrapping_sub(1);
        assert(value & 0xFFu16 == value % 256) by (bit_vector);
        self.registers.f.zero = new_value == 0;
        self.registers.f.subtract = true;
        self.registers.f.half_carry = (value & 0xFF) == 0x0;
        new_value
    }

    fn or(&mut self, value: u8) -> (new_value: u8)
        ensures
            (new_value, final(self).registers.f) == or_result(old(self).registers.a, value),
            final(self).registers == with_flags(old(self).registers, final(self).registers.f),
            same_bus_and_pc(*old(self), *final(self)),
    {
        let new_value = self.registers.a | value;
        self.registers.f.zero = new_value == 0;
        self.registers.f.subtract = false;
        self.registers.f.carry = false;
        self.registers.f.half_carry = false;
        new_value
    }

    fn xor(&mut self, value: u8) -> (new_value: u8)
        ensures
            (new_value, final(self).registers.f) == xor_result(old(self).registers.a, value),
            final(self).registers == with_flags(old(self).registers, final(self).registers.f),
            same_bus_and_pc(*old(self), *final(self)),
    {
        let new_value = self.registers.a ^ value;
        self.registers.f.zero = new_value == 0;
        self.registers.f.subtract = false;
        self.registers.f.carry = false;
        self.registers.f.half_carry = false;
        new_value
    }

    fn and(&mut self, value: u8) -> (new_value: u8)
        ensures
            (new_value, final(self).registers.f) == and_result(old(self).registers.a, value),
            final(self).registers == with_flags(old(self).registers, final(self).registers.f),
            same_bus_and_pc(*old(self), *final(self)),
    {
        let new_value = self.registers.a & value;
        self.registers.f.zero = new_value == 0;
        self.registers.f.subtract = false;
        self.registers.f.carry = false;
        self.registers.f.half_carry = false;
        new_value
    }

    fn swap(&mut self, value: u8) -> (new_value: u8)
        ensures
            (new_value, final(self).registers.f) == swap_result(value),
            final(self).registers == with_flags(old(self).registers, final(self).registers.f),
            same_bus_and_pc(*old(self), *final(self)),
    {
        assert((value << 4u8) | (value >> 4u8) == (value % 16) * 16 + value / 16) by (bit_vector);
        let new_value = (value << 0x4) | (value >> 0x4);
        self.registers.f.zero = new_value == 0;
        self.registers.f.subtract = false;
        self.registers.f.carry = false;
        self.registers.f.half_carry = false;
        new_value
    }

    /// Rotates left through the carry flag.
    fn rotate_left_carry(&mut self, value: u8) -> (new_value: u8)
        ensures
            (new_value, final(self).registers.f) == rl_result(value, old(self).registers.f),
            final(self).registers == with_flags(old(self).registers, final(self).registers.f),
            same_bus_and_pc(*old(self), *final(self)),
    {
        let old_carry = bit_of(self.registers.f.carry);
        assert((old_carry <= 1 ==> (value << 1u8) | old_carry == (value * 2) % 256 + old_carry)
            && (((value & 0x80u8) != 0) == (value >= 128))) by (bit_vector);
        let new_carry = (value & 0x80) != 0;
        let new_value = (value << 1) | old_carry;

        self.registers.f.carry = new_carry;
        self.registers.f.zero = new_value == 0;
        self.registers.f.subtract = false;
        self.registers.f.half_carry = false;
        new_value
    }

    /// Rotates right through the carry flag.
    fn rotate_right_carry(&mut self, value: u8) -> (new_value: u8)
        ensures
            (new_value, final(self).registers.f) == rr_result(value, old(self).registers.f),
            final(self).registers == with_flags(old(self).registers, final(self).registers.f),
            same_bus_and_pc(*old(self), *final(self)),
    {
        let carry_bit = bit_of(self.registers.f.carry);
        assert((carry_bit <= 1 ==> (value >> 1u8) | (carry_bit << 7u8) == value / 2 + carry_bit
            * 128) && (((value & 0x1u8) != 0) == (value % 2 == 1))) by (bit_vector);
        let old_carry = carry_bit << 7;
        let new_carry = (value & 0x1) != 0;
        let new_value = (value >> 1) | old_carry;

        self.registers.f.carry = new_carry;
        self.registers.f.zero = new_value == 0;
        self.registers.f.subtract = false;
        self.registers.f.half_carry = false;
        new_value
    }

    /// Rotates left; bit 7 comes back in at bit 0.
    fn rotate_left(&mut self, value: u8) -> (new_value: u8)
        ensures
            (new_value, final(self).registers.f) == rlc_result(value),
            final(self).registers == with_flags(old(self).registers, final(self).registers.f),
            same_bus_and_pc(*old(self), *final(self)),
    {
        assert(((value << 1u8) | (value >> 7u8) == (value * 2) % 256 + value / 128)
            && (((value & 0x80u8) != 0) == (value >= 128))) by (bit_vector);
        let new_value = (value << 1) | (value >> 7);
        self.registers.f.zero = new_value == 0;
        self.registers.f.subtract = false;
        self.registers.f.half_carry = false;
        self.registers.f.carry = (value & 0x80) != 0;
        new_value
    }

    /// Rotates right; bit 0 comes back in at bit 7.
    fn rotate_right(&mut self, value: u8) -> (new_value: u8)
        ensures
            (new_value, final(self).registers.f) == rrc_result(value),
            final(self).registers == with_flags(old(self).registers, final(self).registers.f),
            same_bus_and_pc(*old(self), *final(self)),
    {
        assert(((value >> 1u8) | (value << 7u8) == value / 2 + (value % 2) * 128)
            && (((value & 0x1u8) != 0) == (value % 2 == 1))) by (bit_vector);
        let new_value = (value >> 1) | (value << 7);
        self.registers.f.zero = new_value == 0;
        self.registers.f.subtract = false;
        self.registers.f.half_carry = false;
        self.registers.f.carry = (value & 0x1) != 0;
        new_value
    }
}

/// Whether the byte at `pc` is the 0xCB prefix.
spec fn fetches_prefix(memory: Seq<u8>, pc: u16) -> bool {
    memory[pc as int] == 0xCB
}

/// The opcode that a step at `pc` executes: the byte after the prefix, if
/// there is one, else the byte at `pc`.
spec fn fetched_opcode(memory: Seq<u8>, pc: u16) -> u8 {
    if fetches_prefix(memory, pc) {
        memory[pc + 1]
    } else {
        memory[pc as int]
    }
}

/// The opcodes that follow the 0xCB prefix and decode to an instruction.
proof fn lemma_prefixed_opcodes(opcode: u8)
    requires
        decode_prefixed(opcode) is Some,
    ensures
        opcode < 0x20 || 0x30 <= opcode < 0x38,
        opcode % 8 != 6,
{
}

/// The unprefixed opcodes that decode to an instruction.
proof fn lemma_unprefixed_opcodes(opcode: u8)
    requires
        decode_unprefixed(opcode) is Some,
    ensures
        opcode < 0x40 ==> (opcode % 8 == 4 || opcode % 8 == 5 || opcode == 0x03 || opcode == 0x13
            || opcode == 0x23 || opcode == 0x09 || opcode == 0x19 || opcode == 0x29 || opcode == 0x0B
            || opcode == 0x1B || opcode == 0x2B) && opcode != 0x34 && opcode != 0x35,
        opcode >= 0x40 ==> 0x80 <= opcode < 0xB8 && opcode % 8 != 6,
{
}

/// The address after `address` is `address + 1`, wrapping from 0xFFFF to 0.
pub proof fn lemma_next_address_wraps(address: u16)
    ensures
        next_address(address) == address.wrapping_add(1),
        address < 0xFFFF ==> next_address(address) == address + 1,
        address == 0xFFFF ==> next_address(address) == 0,
{
}

} // verus!