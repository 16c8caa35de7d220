//! Byte arithmetic as the processor does it: addition with carry and
//! overflow, comparison, shifts and rotations, and the flags that follow.

use vstd::prelude::*;
use crate::cpu::flags::StatusFlags;
use crate::types::{bit, is_negative, BitRead};

verus! {

/// The sum of two bytes and a carry, as a number.
pub open spec fn sum(a: u8, b: u8, carry: bool) -> int {
    a + b + if carry {
        1int
    } else {
        0int
    }
}

/// The byte that an addition leaves: the sum modulo 256.
pub open spec fn sum_byte(a: u8, b: u8, carry: bool) -> u8 {
    (sum(a, b, carry) % 256) as u8
}

/// Whether an addition carries out of bit 7.
pub open spec fn spec_is_carry(a: u8, b: u8, carry: bool) -> bool {
    sum(a, b, carry) > 255
}

/// Whether an addition of `a` and `b` that left `result` overflowed as a
/// signed addition: whether the sign of the result differs from the sign of
/// both operands.
pub open spec fn spec_has_overflown(a: u8, b: u8, result: u8) -> bool {
    ((a ^ result) & (b ^ result) & 0x80) != 0
}

/// Whether an addition carries out of bit 7.
#[verifier::when_used_as_spec(spec_is_carry)]
pub fn is_carry(a: u8, b: u8, carry: bool) -> (r: bool)
    ensures
        r == spec_is_carry(a, b, carry),
{
    let c: u16 = if carry {
        1
    } else {
        0
    };
    a as u16 + b as u16 + c > 255
}

/// Whether an addition of `a` and `b` that left `result` overflowed as a
/// signed addition.
#[verifier::when_used_as_spec(spec_has_overflown)]
pub fn has_overflown(a: u8, b: u8, result: u8) -> (r: bool)
    ensures
        r == spec_has_overflown(a, b, result),
{
    ((a ^ result) & (b ^ result) & 0x80) != 0
}

/// The status word after the zero and negative flags were set from `value`.
pub open spec fn nz(p: StatusFlags, value: u8) -> StatusFlags {
    p.assign(StatusFlags::ZERO, value == 0).assign(StatusFlags::NEGATIVE, value >= 0x80)
}

/// Sets the zero and negative flags from `value`.
pub fn set_nz(p: &mut StatusFlags, value: u8)
    ensures
        *final(p) == nz(*old(p), value),
{
    p.set(StatusFlags::ZERO, value == 0);
    p.set(StatusFlags::NEGATIVE, is_negative(value));
}

/// What an addition with carry leaves: the accumulator, and the status word
/// with carry, zero, overflow and negative set from the addition.
pub open spec fn adc(a: u8, b: u8, p: StatusFlags) -> (u8, StatusFlags) {
    let carry = p.has(StatusFlags::CARRY);
    let result = sum_byte(a, b, carry);
    (
        result,
        nz(
            p.assign(StatusFlags::CARRY, spec_is_carry(a, b, carry)).assign(
                StatusFlags::OVERFLOW,
                spec_has_overflown(a, b, result),
            ),
            result,
        ),
    )
}

/// Adds `b` and the carry flag to `a`.
pub fn add_with_carry(a: u8, b: u8, p: StatusFlags) -> (r: (u8, StatusFlags))
    ensures
        r == adc(a, b, p),
{
    let carry = p.contains(StatusFlags::CARRY);
    let c: u8 = if carry {
        1
    } else {
        0
    };
    let result = a.wrapping_add(b).wrapping_add(c);
    let mut p = p;
    p.set(StatusFlags::CARRY, is_carry(a, b, carry));
    p.set(StatusFlags::OVERFLOW, has_overflown(a, b, result));
    set_nz(&mut p, result);
    (result, p)
}

/// What a subtraction with borrow leaves: that of the addition of the
/// inverted operand. The carry flag stands for "no borrow".
pub open spec fn sbc(a: u8, b: u8, p: StatusFlags) -> (u8, StatusFlags) {
    adc(a, !b, p)
}

/// Subtracts `b` and the borrow from `a`.
pub fn subtract_with_borrow(a: u8, b: u8, p: StatusFlags) -> (r: (u8, StatusFlags))
    ensures
        r == sbc(a, b, p),
{
    add_with_carry(a, !b, p)
}

/// The difference of two bytes, modulo 256.
pub open spec fn difference(a: u8, b: u8) -> u8 {
    ((a - b) % 256) as u8
}

/// The status word after `register` was compared with `b`: carry if the
/// register is not below, zero if both are equal, negative from bit 7 of the
/// difference.
pub open spec fn compared(register: u8, b: u8, p: StatusFlags) -> StatusFlags {
    p.assign(StatusFlags::CARRY, register >= b).assign(StatusFlags::ZERO, register == b).assign(
        StatusFlags::NEGATIVE,
        difference(register, b) >= 0x80,
    )
}

/// Compares `register` with `b`.
pub fn compare(register: u8, b: u8, p: StatusFlags) -> (r: StatusFlags)
    ensures
        r == compared(register, b, p),
{
    let result = register.wrapping_sub(b);
    let mut p = p;
    p.set(StatusFlags::CARRY, register >= b);
    p.set(StatusFlags::ZERO, register == b);
    p.set(StatusFlags::NEGATIVE, is_negative(result));
    p
}

/// The status word after a bit test of `a` against `b`: zero if they share no
/// bit, overflow and negative from bits 6 and 7 of `b`.
pub open spec fn bit_tested(a: u8, b: u8, p: StatusFlags) -> StatusFlags {
    p.assign(StatusFlags::ZERO, a & b == 0).assign(StatusFlags::OVERFLOW, bit(b, 6) != 0).assign(
        StatusFlags::NEGATIVE,
        bit(b, 7) != 0,
    )
}

/// Tests the bits of `b` against `a`.
pub fn bit_test(a: u8, b: u8, p: StatusFlags) -> (r: StatusFlags)
    ensures
        r == bit_tested(a, b, p),
{
    let mut p = p;
    p.set(StatusFlags::ZERO, a & b == 0);
    p.set(StatusFlags::OVERFLOW, b.is_bit_set(6));
    p.set(StatusFlags::NEGATIVE, b.is_bit_set(7));
    p
}

/// A shift or a rotation by one bit.
#[derive(Clone, Copy, Debug, PartialEq, Eq, Structural)]
pub enum Shift {
    /// Left; bit 0 becomes zero.
    Asl,
    /// Right; bit 7 becomes zero.
    Lsr,
    /// Left; bit 0 becomes the old carry.
    Rol,
    /// Right; bit 7 becomes the old carry.
    Ror,
}

/// The byte that a shift of `value` leaves.
pub open spec fn shifted_byte(shift: Shift, value: u8, carry: bool) -> u8 {
    let carry_bit: u8 = if carry {
        1
    } else {
        0
    };
    match shift {
        Shift::Asl => value << 1u8,
        Shift::Lsr => value >> 1u8,
        Shift::Rol => (value << 1u8) | carry_bit,
        Shift::Ror => (value >> 1u8) | (carry_bit << 7u8),
    }
}

/// The bit that a shift of `value` moves into the carry: bit 7 for a shift to
/// the left, bit 0 for a shift to the right.
pub open spec fn shifted_out(shift: Shift, value: u8) -> bool {
    match shift {
        Shift::Asl | Shift::Rol => bit(value, 7) != 0,
        Shift::Lsr | Shift::Ror => bit(value, 0) != 0,
    }
}

/// What a shift leaves: the byte, and the status word with carry, zero and
/// negative set from the shift.
pub open spec fn shifted(shift: Shift, value: u8, p: StatusFlags) -> (u8, StatusFlags) {
    let result = shifted_byte(shift, value, p.has(StatusFlags::CARRY));
    (result, nz(p.assign(StatusFlags::CARRY, shifted_out(shift, value)), result))
}

/// Shifts or rotates `value` by one bit.
pub fn shift_byte(shift: Shift, value: u8, p: StatusFlags) -> (r: (u8, StatusFlags))
    ensures
        r == shifted(shift, value, p),
{
    let carry_bit: u8 = if p.contains(StatusFlags::CARRY) {
        1
    } else {
        0
    };
    let result: u8 = match shift {
        Shift::Asl => value << 1u8,
        Shift::Lsr => value >> 1u8,
        Shift::Rol => (value << 1u8) | carry_bit,
        Shift::Ror => (value >> 1u8) | (carry_bit << 7u8),
    };
    let out: bool = match shift {
        Shift::Asl | Shift::Rol => value.is_bit_set(7),
        Shift::Lsr | Shift::Ror => value.is_bit_set(0),
    };
    let mut p = p;
    p.set(StatusFlags::CARRY, out);
    set_nz(&mut p, result);
    (result, p)
}

} // verus!
