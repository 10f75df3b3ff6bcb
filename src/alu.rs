//! Flag bits and the arithmetic of the ALU helpers, as mathematical functions.
use vstd::prelude::*;

verus! {

/// Set when the result of an operation is zero.
pub const ZERO: u8 = 0x80;

/// Set when the last operation was a subtraction.
pub const SUBTRACT: u8 = 0x40;

/// Set when the low half of an addition carried out.
pub const HALFCARRY: u8 = 0x20;

/// Set when an addition carried out of the full width.
pub const CARRY: u8 = 0x10;

/// One of the four meaningful bits of the flags register.
pub open spec fn is_flag(flag: u8) -> bool {
    flag == ZERO || flag == SUBTRACT || flag == HALFCARRY || flag == CARRY
}

/// `flag` when `on`, else no bit.
pub open spec fn flag_bit(on: bool, flag: u8) -> u8 {
    if on {
        flag
    } else {
        0
    }
}

/// The flags byte with exactly the named bits set.
pub open spec fn flags_of(zero: bool, subtract: bool, half: bool, carry: bool) -> u8 {
    flag_bit(zero, ZERO) | flag_bit(subtract, SUBTRACT) | flag_bit(half, HALFCARRY) | flag_bit(
        carry,
        CARRY,
    )
}

/// Whether `flag` is set in the flags byte `f`.
pub open spec fn has_flag(f: u8, flag: u8) -> bool {
    f & flag == flag
}

/// The low eight bits of the sum of two bytes.
pub open spec fn add8_value(a: u8, b: u8) -> u8 {
    ((a + b) % 256) as u8
}

/// Flags after an 8-bit addition: zero when the unmasked sum is zero, half
/// carry out of the low nibble, carry out of bit 7.
pub open spec fn add8_flags(a: u8, b: u8) -> u8 {
    flags_of(a + b == 0, false, a % 16 + b % 16 > 15, a + b > 255)
}

/// The low sixteen bits of the sum of two words.
pub open spec fn add16_value(a: u16, b: u16) -> u16 {
    ((a + b) % 65536) as u16
}

/// Flags after a 16-bit addition: zero when the unmasked sum is zero, half
/// carry out of bit 11, carry out of bit 15.
pub open spec fn add16_flags(a: u16, b: u16) -> u8 {
    flags_of(a + b == 0, false, a % 4096 + b % 4096 > 4095, a + b > 65535)
}

/// A word plus one, wrapping at the top.
pub open spec fn inc16_value(n: u16) -> u16 {
    ((n + 1) % 65536) as u16
}

/// Flags after a 16-bit increment: zero on wrap-around, never carry.
pub open spec fn inc16_flags(n: u16) -> u8 {
    flags_of(n == 0xFFFF, false, false, false)
}

/// What the add-with-carry handlers leave in the accumulator: `a + b`, plus
/// one when the carry flag was set before the instruction, wrapped to eight
/// bits.
pub open spec fn adc_value(a: u8, b: u8, carry_in: bool) -> u8 {
    ((a + b + flag_bit(carry_in, 1)) % 256) as u8
}

/// Setting, clearing or toggling one flag bit changes that bit alone and
/// keeps the low four bits of the flags byte clear.
pub proof fn lemma_flag_update(f: u8, flag: u8, other: u8)
    requires
        f & 0x0F == 0,
        is_flag(flag),
        is_flag(other),
        other != flag,
    ensures
        (f | flag) & 0x0F == 0,
        has_flag(f | flag, flag),
        has_flag(f | flag, other) == has_flag(f, other),
        (f & !flag) & 0x0F == 0,
        !has_flag(f & !flag, flag),
        has_flag(f & !flag, other) == has_flag(f, other),
        (f ^ flag) & 0x0F == 0,
        has_flag(f ^ flag, flag) == !has_flag(f, flag),
        has_flag(f ^ flag, other) == has_flag(f, other),
        has_flag(f, flag) ==> f & !flag == f ^ flag,
        !has_flag(f, flag) ==> f | flag == f ^ flag,
{
    lemma_flag_update_bits(f, flag, other);
}

proof fn lemma_flag_update_bits(f: u8, flag: u8, other: u8)
    by (bit_vector)
    requires
        f & 0x0F == 0,
        flag == 0x80 || flag == 0x40 || flag == 0x20 || flag == 0x10,
        other == 0x80 || other == 0x40 || other == 0x20 || other == 0x10,
        other != flag,
    ensures
        (f | flag) & 0x0F == 0,
        (f | flag) & flag == flag,
        ((f | flag) & other == other) == (f & other == other),
        (f & !flag) & 0x0F == 0,
        (f & !flag) & flag != flag,
        ((f & !flag) & other == other) == (f & other == other),
        (f ^ flag) & 0x0F == 0,
        ((f ^ flag) & flag == flag) == (f & flag != flag),
        ((f ^ flag) & other == other) == (f & other == other),
        f & flag == flag ==> f & !flag == f ^ flag,
        f & flag != flag ==> f | flag == f ^ flag,
{
}

/// Reading one flag out of a flags byte built by `flags_of`.
pub proof fn lemma_flags_of(zero: bool, subtract: bool, half: bool, carry: bool)
    ensures
        has_flag(flags_of(zero, subtract, half, carry), ZERO) == zero,
        has_flag(flags_of(zero, subtract, half, carry), SUBTRACT) == subtract,
        has_flag(flags_of(zero, subtract, half, carry), HALFCARRY) == half,
        has_flag(flags_of(zero, subtract, half, carry), CARRY) == carry,
        flags_of(zero, subtract, half, carry) & 0x0F == 0,
{
    lemma_flag_bits(
        flag_bit(zero, ZERO),
        flag_bit(subtract, SUBTRACT),
        flag_bit(half, HALFCARRY),
        flag_bit(carry, CARRY),
    );
}

proof fn lemma_flag_bits(z: u8, n: u8, h: u8, c: u8)
    by (bit_vector)
    requires
        z == 0 || z == 0x80,
        n == 0 || n == 0x40,
        h == 0 || h == 0x20,
        c == 0 || c == 0x10,
    ensures
        ((z | n | h | c) & 0x80 == 0x80) == (z == 0x80),
        ((z | n | h | c) & 0x40 == 0x40) == (n == 0x40),
        ((z | n | h | c) & 0x20 == 0x20) == (h == 0x20),
        ((z | n | h | c) & 0x10 == 0x10) == (c == 0x10),
        (z | n | h | c) & 0x0F == 0,
{
}

} // verus!
