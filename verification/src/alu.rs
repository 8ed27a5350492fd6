//! What the arithmetic and logic unit computes: results and conditions of
//! the accumulator operations, stated over integers.

use vstd::prelude::*;
use crate::flags::Flags;

verus! {

/// Bit `i` of `x`.
pub open spec fn bit(x: u8, i: u8) -> bool {
    (x >> i) & 1 == 1
}

/// How many of the `n` lowest bits of `x` are set.
pub open spec fn ones_below(x: u8, n: u8) -> nat
    decreases n,
{
    if n == 0 {
        0
    } else {
        ones_below(x, (n - 1) as u8) + if bit(x, (n - 1) as u8) {
            1nat
        } else {
            0nat
        }
    }
}

/// How many bits of `x` are set.
pub open spec fn count_ones(x: u8) -> nat {
    ones_below(x, 8)
}

/// The parity condition: the number of set bits is even.
pub open spec fn even_parity(x: u8) -> bool {
    count_ones(x) % 2 == 0
}

/// `x` reduced modulo 2^8.
pub open spec fn wrap8(x: int) -> u8 {
    (x % 256) as u8
}

/// `x` reduced modulo 2^16.
pub open spec fn wrap16(x: int) -> u16 {
    (x % 65536) as u16
}

/// The 16-bit word with the given low and high bytes.
pub open spec fn word(lo: u8, hi: u8) -> u16 {
    (hi as int * 256 + lo as int) as u16
}

/// The low byte of a word.
pub open spec fn low_byte(w: u16) -> u8 {
    (w % 256) as u8
}

/// The high byte of a word.
pub open spec fn high_byte(w: u16) -> u8 {
    (w / 256) as u8
}

/// The one's complement of a byte.
pub open spec fn complement(x: u8) -> u8 {
    (255 - x) as u8
}

/// Sign, zero and parity taken from a result; auxiliary carry and carry
/// stay as they are.
pub open spec fn with_szp(fl: Flags, r: u8) -> Flags {
    Flags { sign: r & 0x80 != 0, zero: r == 0, parity: even_parity(r), ..fl }
}

/// `a + x + cin` as the accumulator receives it.
pub open spec fn sum8(a: u8, x: u8, cin: int) -> u8 {
    wrap8(a + x + cin)
}

/// The conditions after an addition with carry-in `cin`: carry out of bit 7
/// and out of bit 3, and sign, zero and parity of the sum.
pub open spec fn add_flags(fl: Flags, a: u8, x: u8, cin: int) -> Flags {
    Flags {
        aux: a % 16 + x % 16 + cin > 15,
        carry: a + x + cin > 255,
        ..with_szp(fl, sum8(a, x, cin))
    }
}

/// The conditions after an increment: as an addition of one, but the carry
/// is not touched.
pub open spec fn inr_flags(fl: Flags, x: u8) -> Flags {
    Flags { carry: fl.carry, ..add_flags(fl, x, 1, 0) }
}

/// `a - x - bin` as the accumulator receives it.
pub open spec fn diff8(a: u8, x: u8, bin: int) -> u8 {
    wrap8(a - x - bin)
}

/// The conditions after a subtraction with borrow-in `bin`. The unit adds
/// the complement of `x` and the inverted borrow; the auxiliary carry is the
/// carry out of bit 3 of that addition, while the carry is the borrow:
/// it is set when `x + bin` exceeds `a`.
pub open spec fn sub_flags(fl: Flags, a: u8, x: u8, bin: int) -> Flags {
    Flags {
        aux: a % 16 + complement(x) % 16 + (1 - bin) > 15,
        carry: x + bin > a,
        ..with_szp(fl, diff8(a, x, bin))
    }
}

/// The conditions after a decrement: as a subtraction of one, but the carry
/// is not touched.
pub open spec fn dcr_flags(fl: Flags, x: u8) -> Flags {
    Flags { carry: fl.carry, ..sub_flags(fl, x, 1, 0) }
}

/// The conditions after a logical AND into `r`: carry cleared, auxiliary
/// carry taken from bit 3 of `a | x`.
pub open spec fn and_flags(fl: Flags, a: u8, x: u8) -> Flags {
    Flags { aux: (a | x) & 0x08 != 0, carry: false, ..with_szp(fl, a & x) }
}

/// The conditions after an exclusive or inclusive OR with result `r`: carry
/// and auxiliary carry cleared.
pub open spec fn or_flags(fl: Flags, r: u8) -> Flags {
    Flags { aux: false, carry: false, ..with_szp(fl, r) }
}

/// Whether the decimal adjustment corrects the low digit.
pub open spec fn daa_fixes_low(fl: Flags, a: u8) -> bool {
    a % 16 > 9 || fl.aux
}

/// Whether the decimal adjustment corrects the high digit.
pub open spec fn daa_fixes_high(fl: Flags, a: u8) -> bool {
    a / 16 > 9 || fl.carry || (a / 16 >= 9 && a % 16 > 9)
}

/// What the decimal adjustment adds to the accumulator.
pub open spec fn daa_addend(fl: Flags, a: u8) -> u8 {
    ((if daa_fixes_low(fl, a) {
        6int
    } else {
        0int
    }) + (if daa_fixes_high(fl, a) {
        0x60int
    } else {
        0int
    })) as u8
}

/// The accumulator after the decimal adjustment.
pub open spec fn daa_result(fl: Flags, a: u8) -> u8 {
    sum8(a, daa_addend(fl, a), 0)
}

/// The conditions after the decimal adjustment: the auxiliary carry is the
/// carry out of the low digit's correction, the carry is set by a correction
/// of the high digit and otherwise kept.
pub open spec fn daa_flags(fl: Flags, a: u8) -> Flags {
    Flags {
        aux: a % 16 + daa_addend(fl, a) % 16 > 15,
        carry: fl.carry || daa_fixes_high(fl, a),
        ..with_szp(fl, daa_result(fl, a))
    }
}

/// Rotate left: bit 7 moves into bit 0.
pub open spec fn rlc_result(a: u8) -> u8 {
    (a << 1) | (a >> 7)
}

/// Rotate right: bit 0 moves into bit 7.
pub open spec fn rrc_result(a: u8) -> u8 {
    (a >> 1) | ((a & 1) << 7)
}

/// Rotate left through the carry: the old carry moves into bit 0.
pub open spec fn ral_result(a: u8, carry: bool) -> u8 {
    (a << 1) | (if carry { 1u8 } else { 0u8 })
}

/// Rotate right through the carry: the old carry moves into bit 7.
pub open spec fn rar_result(a: u8, carry: bool) -> u8 {
    (a >> 1) | (if carry { 0x80u8 } else { 0u8 })
}

/// The condition selected by a three-bit condition code:
/// NZ, Z, NC, C, PO, PE, P, M.
pub open spec fn condition_holds(fl: Flags, cc: u8) -> bool {
    if cc == 0 {
        !fl.zero
    } else if cc == 1 {
        fl.zero
    } else if cc == 2 {
        !fl.carry
    } else if cc == 3 {
        fl.carry
    } else if cc == 4 {
        !fl.parity
    } else if cc == 5 {
        fl.parity
    } else if cc == 6 {
        !fl.sign
    } else if cc == 7 {
        fl.sign
    } else {
        false
    }
}

/// The accumulator after the operation selected by a three-bit code:
/// ADD, ADC, SUB, SBB, ANA, XRA, ORA, CMP. A comparison leaves it as it is.
pub open spec fn alu_result(fl: Flags, op: u8, a: u8, x: u8) -> u8 {
    let c: int = if fl.carry { 1 } else { 0 };
    if op == 0 {
        sum8(a, x, 0)
    } else if op == 1 {
        sum8(a, x, c)
    } else if op == 2 {
        diff8(a, x, 0)
    } else if op == 3 {
        diff8(a, x, c)
    } else if op == 4 {
        a & x
    } else if op == 5 {
        a ^ x
    } else if op == 6 {
        a | x
    } else {
        a
    }
}

/// The conditions after the operation selected by a three-bit code.
pub open spec fn alu_flags(fl: Flags, op: u8, a: u8, x: u8) -> Flags {
    let c: int = if fl.carry { 1 } else { 0 };
    if op == 0 {
        add_flags(fl, a, x, 0)
    } else if op == 1 {
        add_flags(fl, a, x, c)
    } else if op == 2 {
        sub_flags(fl, a, x, 0)
    } else if op == 3 {
        sub_flags(fl, a, x, c)
    } else if op == 4 {
        and_flags(fl, a, x)
    } else if op == 5 {
        or_flags(fl, a ^ x)
    } else if op == 6 {
        or_flags(fl, a | x)
    } else if op == 7 {
        sub_flags(fl, a, x, 0)
    } else {
        fl
    }
}

/// Wrapping addition and subtraction of words are arithmetic modulo 2^16.
pub proof fn lemma_wrapping(x: u16, k: u16)
    ensures
        x.wrapping_add(k) == wrap16(x + k),
        x.wrapping_sub(k) == wrap16(x - k),
{
}

/// Masking and shifting by four bits split a byte into its two hex digits.
pub proof fn lemma_nibbles(x: u8)
    ensures
        x & 0x0F == x % 16,
        x >> 4 == x / 16,
{
    assert(x & 0x0F == x % 16 && x >> 4 == x / 16) by (bit_vector);
}

/// A byte and its one's complement add up to 255.
pub proof fn lemma_complement(x: u8)
    ensures
        !x == complement(x),
{
    assert(!x == (255 - x) as u8) by (bit_vector);
}

/// Subtraction is addition of the complement with the borrow inverted.
pub proof fn lemma_sub_is_complement_add(a: u8, x: u8, bin: int)
    requires
        0 <= bin <= 1,
    ensures
        diff8(a, x, bin) == sum8(a, complement(x), 1 - bin),
{
}

/// After a subtraction or comparison without borrow-in, the carry tells
/// whether the operand exceeded the accumulator and the zero condition
/// whether the two were equal.
pub proof fn lemma_sub_flag_law(fl: Flags, a: u8, x: u8)
    ensures
        sub_flags(fl, a, x, 0).carry == (x > a),
        sub_flags(fl, a, x, 0).zero == (a == x),
        alu_flags(fl, 2, a, x) == sub_flags(fl, a, x, 0),
        alu_flags(fl, 7, a, x) == sub_flags(fl, a, x, 0),
        alu_result(fl, 2, a, x) == diff8(a, x, 0),
        alu_result(fl, 7, a, x) == a,
{
}

/// Whatever operation sets sign, zero and parity from a result sets the
/// parity condition exactly when the result has an even number of set bits.
pub proof fn lemma_parity_law(fl: Flags, r: u8)
    ensures
        with_szp(fl, r).parity <==> count_ones(r) % 2 == 0,
{
}

} // verus!
