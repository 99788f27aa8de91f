//! The CPU's registers.
//!
//! `a` is the accumulator; `b`/`c`, `d`/`e` and `h`/`l` pair up into the
//! 16-bit registers `bc`, `de` and `hl`, the first of each pair holding the
//! high byte; `f` holds the flags.
//!
//! The flags:
//! - zero: set when the result of the operation is 0;
//! - subtract: set when the operation was a subtraction;
//! - half carry: set when the operation carried from the lower four bits
//!   into the upper four bits;
//! - carry: set when the operation overflowed.

use vstd::prelude::*;

verus! {

/// Bit of the flags byte that holds the zero flag.
const ZERO_POSITION: u8 = 7;

/// Bit of the flags byte that holds the subtract flag.
const SUBTRACTION_POSITION: u8 = 6;

/// Bit of the flags byte that holds the half-carry flag.
const HALF_CARRY_POSITION: u8 = 5;

/// Bit of the flags byte that holds the carry flag.
const CARRY_POSITION: u8 = 4;

pub struct Registers {
    pub a: u8,
    pub b: u8,
    pub c: u8,
    pub d: u8,
    pub e: u8,
    pub f: FlagsRegister,
    pub h: u8,
    pub l: u8,
}

pub struct FlagsRegister {
    pub zero: bool,
    pub subtract: bool,
    pub half_carry: bool,
    pub carry: bool,
}

/// The 16-bit value made of a high byte and a low byte.
pub open spec fn pair_value(high: u8, low: u8) -> u16 {
    (high * 256 + low) as u16
}

/// The high byte of a 16-bit value.
pub open spec fn high_byte(value: u16) -> u8 {
    (value / 256) as u8
}

/// The low byte of a 16-bit value.
pub open spec fn low_byte(value: u16) -> u8 {
    (value % 256) as u8
}

impl Registers {
    /// `self` with `bc` replaced by `value`.
    pub open spec fn with_bc(self, value: u16) -> Registers {
        Registers { b: high_byte(value), c: low_byte(value), ..self }
    }

    /// `self` with `de` replaced by `value`.
    pub open spec fn with_de(self, value: u16) -> Registers {
        Registers { d: high_byte(value), e: low_byte(value), ..self }
    }

    /// `self` with `hl` replaced by `value`.
    pub open spec fn with_hl(self, value: u16) -> Registers {
        Registers { h: high_byte(value), l: low_byte(value), ..self }
    }

    pub fn get_bc(&self) -> (value: u16)
        ensures
            value == pair_value(self.b, self.c),
    {
        join_bytes(self.b, self.c)
    }

    pub fn set_bc(&mut self, value: u16)
        ensures
            *final(self) == old(self).with_bc(value),
    {
        let (high, low) = split_word(value);
        self.b = high;
        self.c = low;
    }

    pub fn get_de(&self) -> (value: u16)
        ensures
            value == pair_value(self.d, self.e),
    {
        join_bytes(self.d, self.e)
    }

    pub fn set_de(&mut self, value: u16)
        ensures
            *final(self) == old(self).with_de(value),
    {
        let (high, low) = split_word(value);
        self.d = high;
        self.e = low;
    }

    pub fn get_hl(&self) -> (value: u16)
        ensures
            value == pair_value(self.h, self.l),
    {
        join_bytes(self.h, self.l)
    }

    pub fn set_hl(&mut self, value: u16)
        ensures
            *final(self) == old(self).with_hl(value),
    {
        let (high, low) = split_word(value);
        self.h = high;
        self.l = low;
    }
}

/// The 16-bit value whose high byte is `high` and whose low byte is `low`.
fn join_bytes(high: u8, low: u8) -> (value: u16)
    ensures
        value == pair_value(high, low),
{
    assert(((high as u16) << 8u16) | (low as u16) == high * 256 + low) by (bit_vector);
    (high as u16) << 8 | low as u16
}

/// The high byte and the low byte of `value`.
fn split_word(value: u16) -> (bytes: (u8, u8))
    ensures
        bytes.0 == high_byte(value),
        bytes.1 == low_byte(value),
{
    assert((((value & 0xFF00u16) >> 8u16) as u8 == value / 256)
        && ((value & 0xFFu16) as u8 == value % 256)) by (bit_vector);
    (((value & 0xFF00) >> 8) as u8, (value & 0xFF) as u8)
}

/// The flags as a byte: zero in bit 7, subtract in bit 6, half carry in
/// bit 5, carry in bit 4, the lower four bits clear.
pub open spec fn flags_byte(flags: FlagsRegister) -> u8 {
    ((if flags.zero { 128int } else { 0 }) + (if flags.subtract { 64int } else { 0 }) + (
    if flags.half_carry { 32int } else { 0 }) + (if flags.carry { 16int } else { 0 })) as u8
}

/// The flags read from a byte laid out as in `flags_byte`; the lower four
/// bits are ignored.
pub open spec fn flags_of_byte(byte: u8) -> FlagsRegister {
    FlagsRegister {
        zero: (byte / 128) % 2 == 1,
        subtract: (byte / 64) % 2 == 1,
        half_carry: (byte / 32) % 2 == 1,
        carry: (byte / 16) % 2 == 1,
    }
}

impl From<FlagsRegister> for u8 {
    fn from(flag: FlagsRegister) -> (byte: u8) {
        let zero: u8 = if flag.zero { 1 } else { 0 };
        let subtract: u8 = if flag.subtract { 1 } else { 0 };
        let half_carry: u8 = if flag.half_carry { 1 } else { 0 };
        let carry: u8 = if flag.carry { 1 } else { 0 };
        assert(zero <= 1 && subtract <= 1 && half_carry <= 1 && carry <= 1 ==> (zero << 7u8)
            | (subtract << 6u8) | (half_carry << 5u8) | (carry << 4u8) == zero * 128 + subtract
            * 64 + half_carry * 32 + carry * 16) by (bit_vector);
        zero << ZERO_POSITION | subtract << SUBTRACTION_POSITION | half_carry << HALF_CARRY_POSITION
            | carry << CARRY_POSITION
    }
}

impl vstd::std_specs::convert::FromSpecImpl<FlagsRegister> for u8 {
    open spec fn obeys_from_spec() -> bool {
        true
    }

    open spec fn from_spec(v: FlagsRegister) -> u8 {
        flags_byte(v)
    }
}

impl From<u8> for FlagsRegister {
    fn from(byte: u8) -> (flags: FlagsRegister) {
        assert((((byte >> 7u8) & 1u8 != 0) == ((byte / 128) % 2 == 1))
            && (((byte >> 6u8) & 1u8 != 0) == ((byte / 64) % 2 == 1))
            && (((byte >> 5u8) & 1u8 != 0) == ((byte / 32) % 2 == 1))
            && (((byte >> 4u8) & 1u8 != 0) == ((byte / 16) % 2 == 1))) by (bit_vector);
        let zero = ((byte >> ZERO_POSITION) & 0b1) != 0;
        let subtract = ((byte >> SUBTRACTION_POSITION) & 0b1) != 0;
        let half_carry = ((byte >> HALF_CARRY_POSITION) & 0b1) != 0;
        let carry = ((byte >> CARRY_POSITION) & 0b1) != 0;

        FlagsRegister { zero, subtract, half_carry, carry }
    }
}

impl vstd::std_specs::convert::FromSpecImpl<u8> for FlagsRegister {
    open spec fn obeys_from_spec() -> bool {
        true
    }

    open spec fn from_spec(v: u8) -> FlagsRegister {
        flags_of_byte(v)
    }
}

/// Splitting a 16-bit value into its bytes and joining them gives it back.
pub proof fn lemma_split_then_join(value: u16)
    ensures
        pair_value(high_byte(value), low_byte(value)) == value,
{
    assert(((value / 256) as u8) * 256 + ((value % 256) as u8) == value) by (bit_vector);
}

/// Joining two bytes and splitting the result gives them back.
pub proof fn lemma_join_then_split(high: u8, low: u8)
    ensures
        high_byte(pair_value(high, low)) == high,
        low_byte(pair_value(high, low)) == low,
{
    assert(((((high * 256 + low) as u16) / 256) as u8 == high)
        && ((((high * 256 + low) as u16) % 256) as u8 == low)) by (bit_vector);
}

/// Reading a register pair after setting it gives back the value set, and
/// setting a pair to its own value changes nothing.
pub proof fn lemma_pair_read_after_write(r: Registers, value: u16)
    ensures
        pair_value(r.with_bc(value).b, r.with_bc(value).c) == value,
        pair_value(r.with_de(value).d, r.with_de(value).e) == value,
        pair_value(r.with_hl(value).h, r.with_hl(value).l) == value,
        r.with_bc(pair_value(r.b, r.c)) == r,
        r.with_de(pair_value(r.d, r.e)) == r,
        r.with_hl(pair_value(r.h, r.l)) == r,
{
    lemma_split_then_join(value);
    lemma_join_then_split(r.b, r.c);
    lemma_join_then_split(r.d, r.e);
    lemma_join_then_split(r.h, r.l);
}

/// Converting flags to a byte and back gives the same flags.
pub proof fn lemma_flags_byte_round_trip(flags: FlagsRegister)
    ensures
        flags_of_byte(flags_byte(flags)) == flags,
{
}

/// Converting a byte to flags and back keeps its upper four bits and
/// clears its lower four.
pub proof fn lemma_byte_flags_round_trip(byte: u8)
    ensures
        flags_byte(flags_of_byte(byte)) == byte - byte % 16,
        flags_byte(flags_of_byte(byte)) % 16 == 0,
{
}

/// A register pair holds its first register in the high byte and its second
/// in the low byte: the pair is `high << 8 | low`, and a value splits into
/// `value >> 8` and `value & 0xFF`.
pub proof fn lemma_pair_layout(high: u8, low: u8, value: u16)
    ensures
        pair_value(high, low) == ((high as u16) << 8u16) | (low as u16),
        high_byte(value) == (value >> 8u16) as u8,
        low_byte(value) == (value & 0xFFu16) as u8,
{
    assert((((high as u16) << 8u16) | (low as u16) == (high * 256 + low) as u16)
        && ((value >> 8u16) as u8 == (value / 256) as u8)
        && ((value & 0xFFu16) as u8 == (value % 256) as u8)) by (bit_vector);
}

/// Each flag has its own bit of the flags byte: zero bit 7, subtract bit 6,
/// half carry bit 5 and carry bit 4; the lower four bits are clear, and
/// reading a byte takes each flag from its bit.
pub proof fn lemma_flag_bit_positions(flags: FlagsRegister, byte: u8)
    ensures
        ((flags_byte(flags) >> 7u8) & 1u8 == 1u8) == flags.zero,
        ((flags_byte(flags) >> 6u8) & 1u8 == 1u8) == flags.subtract,
        ((flags_byte(flags) >> 5u8) & 1u8 == 1u8) == flags.half_carry,
        ((flags_byte(flags) >> 4u8) & 1u8 == 1u8) == flags.carry,
        flags_byte(flags) & 0x0Fu8 == 0u8,
        flags_of_byte(byte).zero == ((byte >> 7u8) & 1u8 == 1u8),
        flags_of_byte(byte).subtract == ((byte >> 6u8) & 1u8 == 1u8),
        flags_of_byte(byte).half_carry == ((byte >> 5u8) & 1u8 == 1u8),
        flags_of_byte(byte).carry == ((byte >> 4u8) & 1u8 == 1u8),
{
    let z: u8 = if flags.zero {
        1
    } else {
        0
    };
    let n: u8 = if flags.subtract {
        1
    } else {
        0
    };
    let h: u8 = if flags.half_carry {
        1
    } else {
        0
    };
    let c: u8 = if flags.carry {
        1
    } else {
        0
    };
    let b = flags_byte(flags);
    assert(b == z * 128 + n * 64 + h * 32 + c * 16);
    assert((z <= 1 && n <= 1 && h <= 1 && c <= 1 && b == z * 128 + n * 64 + h * 32 + c * 16 ==> {
        &&& ((b >> 7u8) & 1u8 == 1u8) == (z == 1)
        &&& ((b >> 6u8) & 1u8 == 1u8) == (n == 1)
        &&& ((b >> 5u8) & 1u8 == 1u8) == (h == 1)
        &&& ((b >> 4u8) & 1u8 == 1u8) == (c == 1)
        &&& b & 0x0Fu8 == 0u8
    })
        && (((byte >> 7u8) & 1u8 == 1u8) == ((byte / 128) % 2 == 1))
        && (((byte >> 6u8) & 1u8 == 1u8) == ((byte / 64) % 2 == 1))
        && (((byte >> 5u8) & 1u8 == 1u8) == ((byte / 32) % 2 == 1))
        && (((byte >> 4u8) & 1u8 == 1u8) == ((byte / 16) % 2 == 1))) by (bit_vector);
}

/// Setting one register pair leaves every other register and the flags as
/// they were.
pub proof fn lemma_pair_write_keeps_others(r: Registers, value: u16)
    ensures
        ({
            let n = r.with_bc(value);
            n.a == r.a && n.d == r.d && n.e == r.e && n.h == r.h && n.l == r.l && n.f == r.f
        }),
        ({
            let n = r.with_de(value);
            n.a == r.a && n.b == r.b && n.c == r.c && n.h == r.h && n.l == r.l && n.f == r.f
        }),
        ({
            let n = r.with_hl(value);
            n.a == r.a && n.b == r.b && n.c == r.c && n.d == r.d && n.e == r.e && n.f == r.f
        }),
{
}

} // verus!