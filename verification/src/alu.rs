//! One entry point per instruction mnemonic. Every function is total: any
//! operand value and any incoming flag set is valid, arithmetic wraps at the
//! operand width, and the returned flags follow the width-generic derivation
//! rules together with the instruction's own pre- and post-adjustments.

use vstd::prelude::*;

use crate::flags::Flags;
use crate::rules::{
    add_flags,
    derive_add_flags,
    derive_sub_flags,
    lemma_wrap16_add_congruent,
    lemma_wrap16_near,
    lemma_wrap8_add_congruent,
    lemma_wrap8_near,
    sub_flags,
    wrap16,
    wrap8,
    Width,
};

verus! {

/// ADD, 8-bit: the wrapped sum and its ADD-like flags.
pub fn add8(op1: u8, op2: u8) -> (r: (u8, Flags))
    ensures
        r.0 == wrap8(op1 + op2),
        r.1 == add_flags(op1 as u16, op2 as u16, r.0 as u16, Width::Byte),
{
    proof {
        lemma_wrap8_near(op1 + op2);
    }
    let result = op1.wrapping_add(op2);
    let flags = derive_add_flags(op1 as u16, op2 as u16, result as u16, Width::Byte);
    (result, flags)
}

/// ADD, 16-bit: the wrapped sum and its ADD-like flags.
pub fn add16(op1: u16, op2: u16) -> (r: (u16, Flags))
    ensures
        r.0 == wrap16(op1 + op2),
        r.1 == add_flags(op1, op2, r.0, Width::Word),
{
    proof {
        lemma_wrap16_near(op1 + op2);
    }
    let result = op1.wrapping_add(op2);
    let flags = derive_add_flags(op1, op2, result, Width::Word);
    (result, flags)
}

/// SUB, 8-bit: the wrapped difference and its SUB-like flags.
pub fn sub8(op1: u8, op2: u8) -> (r: (u8, Flags))
    ensures
        r.0 == wrap8(op1 - op2),
        r.1 == sub_flags(op1 as u16, op2 as u16, r.0 as u16, Width::Byte),
{
    proof {
        lemma_wrap8_near(op1 - op2);
    }
    let result = op1.wrapping_sub(op2);
    let flags = derive_sub_flags(op1 as u16, op2 as u16, result as u16, Width::Byte);
    (result, flags)
}

/// SUB, 16-bit: the wrapped difference and its SUB-like flags.
pub fn sub16(op1: u16, op2: u16) -> (r: (u16, Flags))
    ensures
        r.0 == wrap16(op1 - op2),
        r.1 == sub_flags(op1, op2, r.0, Width::Word),
{
    proof {
        lemma_wrap16_near(op1 - op2);
    }
    let result = op1.wrapping_sub(op2);
    let flags = derive_sub_flags(op1, op2, result, Width::Word);
    (result, flags)
}

/// ADC, 8-bit: the wrapped sum with an explicit carry-in operand folded in.
/// The carry-in is absorbed into the wrapped result before flag derivation;
/// the flags are the plain ADD-like set over the original operands.
pub fn adc8(op1: u8, op2: u8, carry: u8) -> (r: (u8, Flags))
    ensures
        r.0 == wrap8(op1 + op2 + carry),
        r.1 == add_flags(op1 as u16, op2 as u16, r.0 as u16, Width::Byte),
{
    proof {
        lemma_wrap8_near(op1 + op2);
        lemma_wrap8_near(wrap8(op1 + op2) + carry);
        lemma_wrap8_add_congruent(op1 + op2, carry as int);
    }
    let result = op1.wrapping_add(op2).wrapping_add(carry);
    let flags = derive_add_flags(op1 as u16, op2 as u16, result as u16, Width::Byte);
    (result, flags)
}

/// ADC, 16-bit: as [`adc8`], at word width.
pub fn adc16(op1: u16, op2: u16, carry: u16) -> (r: (u16, Flags))
    ensures
        r.0 == wrap16(op1 + op2 + carry),
        r.1 == add_flags(op1, op2, r.0, Width::Word),
{
    proof {
        lemma_wrap16_near(op1 + op2);
        lemma_wrap16_near(wrap16(op1 + op2) + carry);
        lemma_wrap16_add_congruent(op1 + op2, carry as int);
    }
    let result = op1.wrapping_add(op2).wrapping_add(carry);
    let flags = derive_add_flags(op1, op2, result, Width::Word);
    (result, flags)
}

/// SBB, 8-bit: the wrapped difference with an explicit borrow-in operand
/// folded in; the flags are the plain SUB-like set over the original
/// operands.
pub fn sbb8(op1: u8, op2: u8, carry: u8) -> (r: (u8, Flags))
    ensures
        r.0 == wrap8(op1 - op2 - carry),
        r.1 == sub_flags(op1 as u16, op2 as u16, r.0 as u16, Width::Byte),
{
    proof {
        lemma_wrap8_near(op1 - op2);
        lemma_wrap8_near(wrap8(op1 - op2) - carry);
        lemma_wrap8_add_congruent(op1 - op2, -(carry as int));
    }
    let result = op1.wrapping_sub(op2).wrapping_sub(carry);
    let flags = derive_sub_flags(op1 as u16, op2 as u16, result as u16, Width::Byte);
    (result, flags)
}

/// SBB, 16-bit: as [`sbb8`], at word width.
pub fn sbb16(op1: u16, op2: u16, carry: u16) -> (r: (u16, Flags))
    ensures
        r.0 == wrap16(op1 - op2 - carry),
        r.1 == sub_flags(op1, op2, r.0, Width::Word),
{
    proof {
        lemma_wrap16_near(op1 - op2);
        lemma_wrap16_near(wrap16(op1 - op2) - carry);
        lemma_wrap16_add_congruent(op1 - op2, -(carry as int));
    }
    let result = op1.wrapping_sub(op2).wrapping_sub(carry);
    let flags = derive_sub_flags(op1, op2, result, Width::Word);
    (result, flags)
}

/// CMP, 8-bit: the SUB-like flags of `op1 - op2`, discarding the numeric
/// difference.
pub fn cmp8(op1: u8, op2: u8) -> (r: Flags)
    ensures
        r == sub_flags(op1 as u16, op2 as u16, wrap8(op1 - op2) as u16, Width::Byte),
{
    proof {
        lemma_wrap8_near(op1 - op2);
    }
    let diff = op1.wrapping_sub(op2);
    derive_sub_flags(op1 as u16, op2 as u16, diff as u16, Width::Byte)
}

/// CMP, 16-bit: the SUB-like flags of `op1 - op2`, discarding the numeric
/// difference.
pub fn cmp16(op1: u16, op2: u16) -> (r: Flags)
    ensures
        r == sub_flags(op1, op2, wrap16(op1 - op2), Width::Word),
{
    proof {
        lemma_wrap16_near(op1 - op2);
    }
    let diff = op1.wrapping_sub(op2);
    derive_sub_flags(op1, op2, diff, Width::Word)
}

/// NEG, 8-bit: subtraction of the operand from zero. The carry flag reports
/// a borrow, which happens exactly when the operand is nonzero.
pub fn neg8(op1: u8) -> (r: (u8, Flags))
    ensures
        r.0 == wrap8(0 - op1),
        r.1 == sub_flags(0, op1 as u16, r.0 as u16, Width::Byte),
        r.1.carry == (op1 != 0),
{
    proof {
        lemma_wrap8_near(0 - op1);
    }
    let result = 0u8.wrapping_sub(op1);
    let flags = derive_sub_flags(0, op1 as u16, result as u16, Width::Byte);
    (result, flags)
}

/// NEG, 16-bit: as [`neg8`], at word width.
pub fn neg16(op1: u16) -> (r: (u16, Flags))
    ensures
        r.0 == wrap16(0 - op1),
        r.1 == sub_flags(0, op1, r.0, Width::Word),
        r.1.carry == (op1 != 0),
{
    proof {
        lemma_wrap16_near(0 - op1);
    }
    let result = 0u16.wrapping_sub(op1);
    let flags = derive_sub_flags(0, op1, result, Width::Word);
    (result, flags)
}

/// INC, 8-bit: addition of one, except that the carry flag is never derived —
/// it is carried over verbatim from the incoming flags.
pub fn inc8(op1: u8, flags: Flags) -> (r: (u8, Flags))
    ensures
        r.0 == wrap8(op1 + 1),
        r.1 == (Flags { carry: flags.carry, ..add_flags(op1 as u16, 1, r.0 as u16, Width::Byte) }),
{
    proof {
        lemma_wrap8_near(op1 + 1);
    }
    let result = op1.wrapping_add(1);
    let mut derived = derive_add_flags(op1 as u16, 1, result as u16, Width::Byte);
    derived.carry = flags.carry;
    (result, derived)
}

/// INC, 16-bit: as [`inc8`], at word width.
pub fn inc16(op1: u16, flags: Flags) -> (r: (u16, Flags))
    ensures
        r.0 == wrap16(op1 + 1),
        r.1 == (Flags { carry: flags.carry, ..add_flags(op1, 1, r.0, Width::Word) }),
{
    proof {
        lemma_wrap16_near(op1 + 1);
    }
    let result = op1.wrapping_add(1);
    let mut derived = derive_add_flags(op1, 1, result, Width::Word);
    derived.carry = flags.carry;
    (result, derived)
}

/// DEC, 8-bit: subtraction of one, except that the carry flag is never
/// derived — it is carried over verbatim from the incoming flags.
pub fn dec8(op1: u8, flags: Flags) -> (r: (u8, Flags))
    ensures
        r.0 == wrap8(op1 - 1),
        r.1 == (Flags { carry: flags.carry, ..sub_flags(op1 as u16, 1, r.0 as u16, Width::Byte) }),
{
    proof {
        lemma_wrap8_near(op1 - 1);
    }
    let result = op1.wrapping_sub(1);
    let mut derived = derive_sub_flags(op1 as u16, 1, result as u16, Width::Byte);
    derived.carry = flags.carry;
    (result, derived)
}

/// DEC, 16-bit: as [`dec8`], at word width.
pub fn dec16(op1: u16, flags: Flags) -> (r: (u16, Flags))
    ensures
        r.0 == wrap16(op1 - 1),
        r.1 == (Flags { carry: flags.carry, ..sub_flags(op1, 1, r.0, Width::Word) }),
{
    proof {
        lemma_wrap16_near(op1 - 1);
    }
    let result = op1.wrapping_sub(1);
    let mut derived = derive_sub_flags(op1, 1, result, Width::Word);
    derived.carry = flags.carry;
    (result, derived)
}

/// The low-nibble condition of the decimal adjusts: the low nibble of the
/// accumulator is not a decimal digit, or the previous operation reported an
/// auxiliary carry.
pub open spec fn decimal_low_adjust(op1: u8, flags: Flags) -> bool {
    op1 & 0xF > 9 || flags.auxiliary_carry
}

/// The high condition of the decimal adjusts: the accumulator value before
/// any correction exceeds 0x9F, or the previous operation reported a carry.
pub open spec fn decimal_high_adjust(op1: u8, flags: Flags) -> bool {
    op1 > 0x9F || flags.carry
}

/// The accumulator after DAA's two conditional corrections: plus 6 for the
/// low nibble, then plus 0x60, each applied only when its condition holds.
pub open spec fn daa_result(op1: u8, flags: Flags) -> u8 {
    let low_corrected = if decimal_low_adjust(op1, flags) {
        wrap8(op1 + 6)
    } else {
        op1
    };
    if decimal_high_adjust(op1, flags) {
        wrap8(low_corrected + 0x60)
    } else {
        low_corrected
    }
}

/// The accumulator after DAS's two conditional corrections: minus 6 for the
/// low nibble, then minus 0x60, each applied only when its condition holds.
pub open spec fn das_result(op1: u8, flags: Flags) -> u8 {
    let low_corrected = if decimal_low_adjust(op1, flags) {
        wrap8(op1 - 6)
    } else {
        op1
    };
    if decimal_high_adjust(op1, flags) {
        wrap8(low_corrected - 0x60)
    } else {
        low_corrected
    }
}

/// DAA: decimal adjust after addition, on an 8-bit accumulator. Parity,
/// zero, sign and overflow are derived from the corrected result by the
/// ADD-like rules with the uncorrected accumulator as both operands; the
/// auxiliary carry and the carry are exactly the two correction conditions.
pub fn daa(op1: u8, flags: Flags) -> (r: (u8, Flags))
    ensures
        r.0 == daa_result(op1, flags),
        r.1 == (Flags {
            carry: decimal_high_adjust(op1, flags),
            auxiliary_carry: decimal_low_adjust(op1, flags),
            ..add_flags(op1 as u16, op1 as u16, r.0 as u16, Width::Byte)
        }),
{
    let low_adjust = op1 & 0xF > 9 || flags.auxiliary_carry;
    let high_adjust = op1 > 0x9F || flags.carry;
    let mut result = op1;
    if low_adjust {
        proof {
            lemma_wrap8_near(op1 + 6);
        }
        result = result.wrapping_add(6);
    }
    if high_adjust {
        proof {
            lemma_wrap8_near(result + 0x60);
        }
        result = result.wrapping_add(0x60);
    }
    let mut derived = derive_add_flags(op1 as u16, op1 as u16, result as u16, Width::Byte);
    derived.auxiliary_carry = low_adjust;
    derived.carry = high_adjust;
    (result, derived)
}

/// DAS: decimal adjust after subtraction, on an 8-bit accumulator. As
/// [`daa`], with subtractive corrections and the SUB-like derivation rules.
pub fn das(op1: u8, flags: Flags) -> (r: (u8, Flags))
    ensures
        r.0 == das_result(op1, flags),
        r.1 == (Flags {
            carry: decimal_high_adjust(op1, flags),
            auxiliary_carry: decimal_low_adjust(op1, flags),
            ..sub_flags(op1 as u16, op1 as u16, r.0 as u16, Width::Byte)
        }),
{
    let low_adjust = op1 & 0xF > 9 || flags.auxiliary_carry;
    let high_adjust = op1 > 0x9F || flags.carry;
    let mut result = op1;
    if low_adjust {
        proof {
            lemma_wrap8_near(op1 - 6);
        }
        result = result.wrapping_sub(6);
    }
    if high_adjust {
        proof {
            lemma_wrap8_near(result - 0x60);
        }
        result = result.wrapping_sub(0x60);
    }
    let mut derived = derive_sub_flags(op1 as u16, op1 as u16, result as u16, Width::Byte);
    derived.auxiliary_carry = low_adjust;
    derived.carry = high_adjust;
    (result, derived)
}

/// The condition of the ASCII adjusts: the low nibble of the accumulator is
/// not a decimal digit, or the previous operation reported an auxiliary
/// carry.
pub open spec fn ascii_adjust(op1: u16, flags: Flags) -> bool {
    op1 & 0xF > 9 || flags.auxiliary_carry
}

/// The 16-bit accumulator after AAA: plus 6 in the low byte and plus one in
/// the high byte when the condition holds, then the low nibble of the high
/// byte masked to zero in every case.
pub open spec fn aaa_result(op1: u16, flags: Flags) -> u16 {
    (if ascii_adjust(op1, flags) {
        wrap16(op1 + 262)
    } else {
        op1
    }) & 0xFF0F
}

/// The 16-bit accumulator after AAS: minus 6 in the low byte and minus one
/// in the high byte when the condition holds, then the low nibble of the
/// high byte masked to zero in every case.
pub open spec fn aas_result(op1: u16, flags: Flags) -> u16 {
    (if ascii_adjust(op1, flags) {
        wrap16(op1 - 262)
    } else {
        op1
    }) & 0xFF0F
}

/// AAA: ASCII adjust after addition, on a 16-bit accumulator whose low byte
/// is the adjusted digit. When the condition holds both the auxiliary carry
/// and the carry are set; otherwise both are clear. No other flag is
/// derived.
pub fn aaa(op1: u16, flags: Flags) -> (r: (u16, Flags))
    ensures
        r.0 == aaa_result(op1, flags),
        r.1 == (Flags {
            carry: ascii_adjust(op1, flags),
            auxiliary_carry: ascii_adjust(op1, flags),
            ..Flags::empty_spec()
        }),
{
    let adjust = op1 & 0xF > 9 || flags.auxiliary_carry;
    let adjusted = if adjust {
        proof {
            lemma_wrap16_near(op1 + 262);
        }
        op1.wrapping_add(262)
    } else {
        op1
    };
    let result = adjusted & 0xFF0F;
    let mut r_flags = Flags::empty();
    r_flags.carry = adjust;
    r_flags.auxiliary_carry = adjust;
    (result, r_flags)
}

/// AAS: ASCII adjust after subtraction, on a 16-bit accumulator. As
/// [`aaa`], with a subtractive adjustment.
pub fn aas(op1: u16, flags: Flags) -> (r: (u16, Flags))
    ensures
        r.0 == aas_result(op1, flags),
        r.1 == (Flags {
            carry: ascii_adjust(op1, flags),
            auxiliary_carry: ascii_adjust(op1, flags),
            ..Flags::empty_spec()
        }),
{
    let adjust = op1 & 0xF > 9 || flags.auxiliary_carry;
    let adjusted = if adjust {
        proof {
            lemma_wrap16_near(op1 - 262);
        }
        op1.wrapping_sub(262)
    } else {
        op1
    };
    let result = adjusted & 0xFF0F;
    let mut r_flags = Flags::empty();
    r_flags.carry = adjust;
    r_flags.auxiliary_carry = adjust;
    (result, r_flags)
}

} // verus!
