//! Width-generic flag derivation: given the two operands, the wrapped result
//! and an operand width, each rule says whether one status bit is set.
//!
//! The rules are stated over `u16` values; an 8-bit operation passes its
//! operands widened to `u16` and selects [`Width::Byte`], which only moves
//! the sign-bit position. Parity and the auxiliary carry always inspect the
//! fixed low-byte bit positions, whatever the width.

use vstd::prelude::*;

use crate::flags::Flags;
use vstd::arithmetic::div_mod::{
    lemma_add_mod_noop_right,
    lemma_mod_add_multiples_vanish,
    lemma_mod_sub_multiples_vanish,
    lemma_small_mod,
};

verus! {

/// The operand width of one operation: every call is entirely 8-bit or
/// entirely 16-bit.
#[derive(Clone, Copy, Debug, PartialEq, Eq, Structural)]
pub enum Width {
    Byte,
    Word,
}

/// The value `x` reduced modulo 256: the numeric result of an 8-bit
/// operation that wrapped.
pub open spec fn wrap8(x: int) -> u8 {
    (x % 256) as u8
}

/// The value `x` reduced modulo 2^16: the numeric result of a 16-bit
/// operation that wrapped.
pub open spec fn wrap16(x: int) -> u16 {
    (x % 0x10000) as u16
}

/// The mask selecting the most significant bit for the given width.
pub open spec fn sign_mask(w: Width) -> u16 {
    match w {
        Width::Byte => 0x80,
        Width::Word => 0x8000,
    }
}

/// Whether the most significant bit of `x`, at the width's sign position,
/// is set.
pub open spec fn sign_bit(x: u16, w: Width) -> bool {
    x & sign_mask(w) == sign_mask(w)
}

/// The number of one bits among the low eight bits of `x`.
pub open spec fn low_byte_ones(x: u16) -> int {
    (x & 1) + ((x >> 1) & 1) + ((x >> 2) & 1) + ((x >> 3) & 1) + ((x >> 4) & 1) + ((x >> 5) & 1) + (
    (x >> 6) & 1) + ((x >> 7) & 1)
}

/// The parity rule: set iff the low byte of the result holds an even number
/// of one bits. Width-independent: always exactly the low byte.
pub open spec fn even_parity(x: u16) -> bool {
    low_byte_ones(x) % 2 == 0
}

/// The additive auxiliary-carry rule: a carry ran from bit 3 into bit 4,
/// reconstructed from bit 3 of both operands and of the wrapped result.
pub open spec fn nibble_carry(op1: u16, op2: u16, result: u16) -> bool {
    (result & 8 == 8 && op1 & 8 == 8 && op2 & 8 == 8) || (result & 8 == 0 && (op1 & 8 == 8 || op2
        & 8 == 8))
}

/// The flags an ADD-like operation derives from its operands and wrapped
/// result. Carry is set iff the wrapped sum went backwards; signed overflow
/// iff two same-signed operands produced a differently-signed result.
pub open spec fn add_flags(op1: u16, op2: u16, result: u16, w: Width) -> Flags {
    Flags {
        carry: result < op1,
        parity: even_parity(result),
        auxiliary_carry: nibble_carry(op1, op2, result),
        zero: result == 0,
        sign: sign_bit(result, w),
        trap: false,
        interrupt: false,
        direction: false,
        overflow: sign_bit(op1, w) == sign_bit(op2, w) && sign_bit(result, w) != sign_bit(op1, w),
    }
}

/// The flags a SUB-like operation derives from its operands and wrapped
/// result. Carry is set iff a borrow was required; the auxiliary carry iff a
/// nibble borrow was required; signed overflow iff the operands' signs differ
/// and the result took the subtrahend's sign.
pub open spec fn sub_flags(op1: u16, op2: u16, result: u16, w: Width) -> Flags {
    Flags {
        carry: op2 > op1,
        parity: even_parity(result),
        auxiliary_carry: (op2 & 0xF) > (op1 & 0xF),
        zero: result == 0,
        sign: sign_bit(result, w),
        trap: false,
        interrupt: false,
        direction: false,
        overflow: sign_bit(op1, w) != sign_bit(op2, w) && sign_bit(result, w) == sign_bit(op2, w),
    }
}

/// Computes the parity rule.
fn low_byte_parity(x: u16) -> (r: bool)
    ensures
        r == even_parity(x),
{
    proof {
        assert((x & 1) <= 1 && ((x >> 1) & 1) <= 1 && ((x >> 2) & 1) <= 1 && ((x >> 3) & 1) <= 1
            && ((x >> 4) & 1) <= 1 && ((x >> 5) & 1) <= 1 && ((x >> 6) & 1) <= 1 && ((x >> 7) & 1)
            <= 1) by (bit_vector);
    }
    let ones: u16 = (x & 1) + ((x >> 1) & 1) + ((x >> 2) & 1) + ((x >> 3) & 1) + ((x >> 4) & 1) + (
    (x >> 5) & 1) + ((x >> 6) & 1) + ((x >> 7) & 1);
    ones % 2 == 0
}

/// Computes the sign-bit rule for the given width.
fn sign_bit_of(x: u16, w: Width) -> (r: bool)
    ensures
        r == sign_bit(x, w),
{
    match w {
        Width::Byte => x & 0x80 == 0x80,
        Width::Word => x & 0x8000 == 0x8000,
    }
}

/// Derives the full flag set of an ADD-like operation.
pub(crate) fn derive_add_flags(op1: u16, op2: u16, result: u16, w: Width) -> (r: Flags)
    ensures
        r == add_flags(op1, op2, result, w),
{
    let result_sign = sign_bit_of(result, w);
    let op1_sign = sign_bit_of(op1, w);
    let op2_sign = sign_bit_of(op2, w);
    Flags {
        carry: result < op1,
        parity: low_byte_parity(result),
        auxiliary_carry: (result & 8 == 8 && op1 & 8 == 8 && op2 & 8 == 8) || (result & 8 == 0 && (
        op1 & 8 == 8 || op2 & 8 == 8)),
        zero: result == 0,
        sign: result_sign,
        trap: false,
        interrupt: false,
        direction: false,
        overflow: op1_sign == op2_sign && result_sign != op1_sign,
    }
}

/// Derives the full flag set of a SUB-like operation.
pub(crate) fn derive_sub_flags(op1: u16, op2: u16, result: u16, w: Width) -> (r: Flags)
    ensures
        r == sub_flags(op1, op2, result, w),
{
    let result_sign = sign_bit_of(result, w);
    let op1_sign = sign_bit_of(op1, w);
    let op2_sign = sign_bit_of(op2, w);
    Flags {
        carry: op2 > op1,
        parity: low_byte_parity(result),
        auxiliary_carry: (op2 & 0xF) > (op1 & 0xF),
        zero: result == 0,
        sign: result_sign,
        trap: false,
        interrupt: false,
        direction: false,
        overflow: op1_sign != op2_sign && result_sign == op2_sign,
    }
}

/// A value already in `[0, 256)` is its own 8-bit wrap.
pub proof fn lemma_wrap8_in_range(x: int)
    requires
        0 <= x < 256,
    ensures
        wrap8(x) == x,
{
    lemma_small_mod(x as nat, 256);
}

/// Evaluates an 8-bit wrap whose argument lies within one modulus of the
/// representable range, the case of every single arithmetic step.
pub proof fn lemma_wrap8_near(x: int)
    requires
        -256 <= x < 512,
    ensures
        0 <= x < 256 ==> wrap8(x) == x,
        x < 0 ==> wrap8(x) == x + 256,
        256 <= x ==> wrap8(x) == x - 256,
{
    if 0 <= x < 256 {
        lemma_small_mod(x as nat, 256);
    } else if x < 0 {
        lemma_mod_add_multiples_vanish(x, 256);
        lemma_small_mod((x + 256) as nat, 256);
    } else {
        lemma_mod_sub_multiples_vanish(x, 256);
        lemma_small_mod((x - 256) as nat, 256);
    }
}

/// An already-wrapped intermediate can absorb a further addend: wrapping the
/// sum of a wrap equals wrapping the whole sum.
pub proof fn lemma_wrap8_add_congruent(x: int, y: int)
    ensures
        wrap8(wrap8(x) + y) == wrap8(x + y),
{
    lemma_add_mod_noop_right(y, x, 256);
}

/// Evaluates a 16-bit wrap whose argument lies within one modulus of the
/// representable range, the case of every single arithmetic step.
pub proof fn lemma_wrap16_near(x: int)
    requires
        -0x10000 <= x < 0x20000,
    ensures
        0 <= x < 0x10000 ==> wrap16(x) == x,
        x < 0 ==> wrap16(x) == x + 0x10000,
        0x10000 <= x ==> wrap16(x) == x - 0x10000,
{
    if 0 <= x < 0x10000 {
        lemma_small_mod(x as nat, 0x10000);
    } else if x < 0 {
        lemma_mod_add_multiples_vanish(x, 0x10000);
        lemma_small_mod((x + 0x10000) as nat, 0x10000);
    } else {
        lemma_mod_sub_multiples_vanish(x, 0x10000);
        lemma_small_mod((x - 0x10000) as nat, 0x10000);
    }
}

/// An already-wrapped intermediate can absorb a further addend: wrapping the
/// sum of a wrap equals wrapping the whole sum.
pub proof fn lemma_wrap16_add_congruent(x: int, y: int)
    ensures
        wrap16(wrap16(x) + y) == wrap16(x + y),
{
    lemma_add_mod_noop_right(y, x, 0x10000);
}

} // verus!
