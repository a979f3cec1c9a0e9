//! General properties of the derivation rules, stated over the same spec
//! functions that the instruction contracts use.

use vstd::prelude::*;

use crate::flags::Flags;
use crate::rules::{
    add_flags,
    even_parity,
    low_byte_ones,
    lemma_wrap16_near,
    lemma_wrap8_add_congruent,
    lemma_wrap8_in_range,
    lemma_wrap8_near,
    nibble_carry,
    sub_flags,
    wrap16,
    wrap8,
    Width,
};

verus! {

/// Adding zero to any 8-bit value is the identity: the result is the value
/// itself, the zero flag holds exactly when the value is zero, and the
/// carry, overflow and auxiliary-carry flags are all clear.
pub proof fn lemma_add_zero_identity(a: u8)
    ensures
        wrap8(a + 0) == a,
        add_flags(a as u16, 0, a as u16, Width::Byte).zero == (a == 0),
        !add_flags(a as u16, 0, a as u16, Width::Byte).carry,
        !add_flags(a as u16, 0, a as u16, Width::Byte).overflow,
        !add_flags(a as u16, 0, a as u16, Width::Byte).auxiliary_carry,
{
    lemma_wrap8_in_range(a as int);
    assert(0u16 & 8 == 0) by (bit_vector);
}

/// The parity flag of either derivation rule set, at either width, is set
/// exactly when the number of one bits in the low byte of the result is
/// even — and it depends on the low byte alone.
pub proof fn lemma_parity_rule(op1: u16, op2: u16, result: u16, w: Width)
    ensures
        add_flags(op1, op2, result, w).parity == even_parity(result),
        sub_flags(op1, op2, result, w).parity == even_parity(result),
        even_parity(result) == even_parity(result & 0xFF),
{
    assert(low_byte_ones(result) == low_byte_ones(result & 0xFF)) by (bit_vector);
}

/// Comparing any 8-bit value with itself yields exactly the zero and parity
/// flags: the difference is zero, zero bits have even count, and no borrow,
/// nibble borrow, sign or signed overflow can arise.
pub proof fn lemma_compare_equal(a: u8)
    ensures
        wrap8(a - a) == 0,
        sub_flags(a as u16, a as u16, 0, Width::Byte) == (Flags {
            zero: true,
            parity: true,
            ..Flags::empty_spec()
        }),
{
    lemma_wrap8_in_range(0);
    assert(0u16 & 0x80 == 0 && low_byte_ones(0) == 0) by (bit_vector);
}

/// On the wrapped sum of two bytes, the additive carry rule — the sum "went
/// backwards" — reports exactly unsigned overflow out of the top bit.
pub proof fn lemma_add_carry_reports_unsigned_overflow(op1: u8, op2: u8)
    ensures
        add_flags(op1 as u16, op2 as u16, wrap8(op1 + op2) as u16, Width::Byte).carry == (op1 + op2
            > 255),
{
    lemma_wrap8_near(op1 + op2);
}

/// On the wrapped sum of two words, the additive carry rule reports exactly
/// unsigned overflow out of the top bit.
pub proof fn lemma_add_carry_reports_unsigned_overflow_word(op1: u16, op2: u16)
    ensures
        add_flags(op1, op2, wrap16(op1 + op2), Width::Word).carry == (op1 + op2 > 0xFFFF),
{
    lemma_wrap16_near(op1 + op2);
}

/// On the wrapped sum of two bytes, the bit-3 reconstruction of the
/// auxiliary carry reports exactly a carry out of the low nibble: the low
/// nibbles of the operands sum past 15.
pub proof fn lemma_nibble_carry_reports_low_nibble_overflow(op1: u8, op2: u8)
    ensures
        nibble_carry(op1 as u16, op2 as u16, wrap8(op1 + op2) as u16) == ((op1 & 0xF) + (op2 & 0xF)
            > 0xF),
{
    lemma_wrap8_near(op1 + op2);
    let r = wrap8(op1 + op2);
    if op1 + op2 < 256 {
        assert(nibble_carry(op1 as u16, op2 as u16, r as u16) == ((op1 & 0xF) + (op2 & 0xF) > 0xF))
            by (bit_vector)
            requires
                r == op1 + op2,
        ;
    } else {
        assert(nibble_carry(op1 as u16, op2 as u16, r as u16) == ((op1 & 0xF) + (op2 & 0xF) > 0xF))
            by (bit_vector)
            requires
                r == op1 + op2 - 256,
        ;
    }
}

/// On the wrapped sum of two bytes, the additive overflow rule — same
/// operand signs, different result sign — reports exactly that the signed
/// interpretation of the true sum does not fit in a signed byte.
pub proof fn lemma_overflow_reports_signed_overflow(op1: u8, op2: u8)
    ensures
        add_flags(op1 as u16, op2 as u16, wrap8(op1 + op2) as u16, Width::Byte).overflow == !(-128
            <= (op1 as i8) + (op2 as i8) <= 127),
{
    lemma_wrap8_near(op1 + op2);
    let r = wrap8(op1 + op2);
    if op1 + op2 < 256 {
        assert(((((op1 as u16) & 0x80 == 0x80) == ((op2 as u16) & 0x80 == 0x80)) && (((r as u16)
            & 0x80 == 0x80) != ((op1 as u16) & 0x80 == 0x80))) == !(-128 <= (op1 as i8) + (
        op2 as i8) <= 127)) by (bit_vector)
            requires
                r == op1 + op2,
        ;
    } else {
        assert(((((op1 as u16) & 0x80 == 0x80) == ((op2 as u16) & 0x80 == 0x80)) && (((r as u16)
            & 0x80 == 0x80) != ((op1 as u16) & 0x80 == 0x80))) == !(-128 <= (op1 as i8) + (
        op2 as i8) <= 127)) by (bit_vector)
            requires
                r == op1 + op2 - 256,
        ;
    }
}

/// The numeric round trip of the subtractive operations: subtracting `b`
/// and then adding `b` back returns any 8-bit value `a`, modulo 256,
/// whatever the flag side effects of the two steps.
pub proof fn lemma_sub_then_add(a: u8, b: u8)
    ensures
        wrap8(wrap8(a - b) + b) == a,
{
    lemma_wrap8_add_congruent(a - b, b as int);
    lemma_wrap8_in_range(a as int);
}

} // verus!
