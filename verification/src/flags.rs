//! The condition register. Its byte is laid out as `S Z 0 A 0 P 1 C`: five
//! condition bits, two bits that always read 0 and one that always reads 1.

use vstd::prelude::*;

verus! {

pub const SIGN_BIT: u8 = 0x80;

pub const ZERO_BIT: u8 = 0x40;

pub const AUX_BIT: u8 = 0x10;

pub const PARITY_BIT: u8 = 0x04;

pub const CARRY_BIT: u8 = 0x01;

/// The byte the register holds after reset: only the fixed bit is set.
pub const INITIAL_FLAGS: u8 = 0x02;

/// The five conditions, as the instruction descriptions speak of them.
pub struct Flags {
    pub sign: bool,
    pub zero: bool,
    pub aux: bool,
    pub parity: bool,
    pub carry: bool,
}

/// A flag byte has the register's layout when bit 1 is set and bits 3 and 5
/// are clear.
pub open spec fn well_formed(f: u8) -> bool {
    f & 0x2A == 0x02
}

/// The conditions that a byte carries in bits 7, 6, 4, 2 and 0.
pub open spec fn unpack(f: u8) -> Flags {
    Flags {
        sign: f & 0x80 != 0,
        zero: f & 0x40 != 0,
        aux: f & 0x10 != 0,
        parity: f & 0x04 != 0,
        carry: f & 0x01 != 0,
    }
}

/// The register byte for a set of conditions.
pub open spec fn pack(fl: Flags) -> u8 {
    (if fl.sign { 0x80u8 } else { 0u8 }) | (if fl.zero { 0x40u8 } else { 0u8 }) | (if fl.aux {
        0x10u8
    } else {
        0u8
    }) | (if fl.parity { 0x04u8 } else { 0u8 }) | 0x02u8 | (if fl.carry { 0x01u8 } else { 0u8 })
}

/// What is stored when an arbitrary byte is loaded into the register: the
/// condition bits are kept and the three fixed bits are forced.
pub open spec fn sanitized(b: u8) -> u8 {
    (b & 0xD7) | 0x02
}

proof fn lemma_pack_bits(s: bool, z: bool, a: bool, p: bool, c: bool)
    by (bit_vector)
    ensures
        ({
            let f = (if s { 0x80u8 } else { 0u8 }) | (if z { 0x40u8 } else { 0u8 }) | (if a {
                0x10u8
            } else {
                0u8
            }) | (if p { 0x04u8 } else { 0u8 }) | 0x02u8 | (if c { 0x01u8 } else { 0u8 });
            &&& (f & 0x80 != 0) == s
            &&& (f & 0x40 != 0) == z
            &&& (f & 0x10 != 0) == a
            &&& (f & 0x04 != 0) == p
            &&& (f & 0x01 != 0) == c
            &&& f & 0x2A == 0x02
        }),
{
}

proof fn lemma_sanitized_bits(b: u8)
    by (bit_vector)
    ensures
        ({
            let f = (b & 0xD7) | 0x02;
            &&& f & 0x80 == b & 0x80
            &&& f & 0x40 == b & 0x40
            &&& f & 0x10 == b & 0x10
            &&& f & 0x04 == b & 0x04
            &&& f & 0x01 == b & 0x01
            &&& f & 0x2A == 0x02
            &&& (b & 0x2A == 0x02 ==> f == b)
            &&& f == (if b & 0x80 != 0 { 0x80u8 } else { 0u8 }) | (if b & 0x40 != 0 {
                0x40u8
            } else {
                0u8
            }) | (if b & 0x10 != 0 { 0x10u8 } else { 0u8 }) | (if b & 0x04 != 0 {
                0x04u8
            } else {
                0u8
            }) | 0x02u8 | (if b & 0x01 != 0 { 0x01u8 } else { 0u8 })
        }),
{
}

proof fn lemma_bit_update(f: u8, m: u8)
    by (bit_vector)
    requires
        m == 0x80 || m == 0x40 || m == 0x10 || m == 0x04 || m == 0x01,
    ensures
        (f | m) & m != 0,
        (f & !m) & m == 0,
        m != 0x80 ==> (f | m) & 0x80 == f & 0x80 && (f & !m) & 0x80 == f & 0x80,
        m != 0x40 ==> (f | m) & 0x40 == f & 0x40 && (f & !m) & 0x40 == f & 0x40,
        m != 0x10 ==> (f | m) & 0x10 == f & 0x10 && (f & !m) & 0x10 == f & 0x10,
        m != 0x04 ==> (f | m) & 0x04 == f & 0x04 && (f & !m) & 0x04 == f & 0x04,
        m != 0x01 ==> (f | m) & 0x01 == f & 0x01 && (f & !m) & 0x01 == f & 0x01,
        (f | m) & 0x2A == f & 0x2A,
        (f & !m) & 0x2A == f & 0x2A,
{
}

/// Packing always yields a byte of the register's layout, and reading the
/// conditions back returns what was packed.
pub proof fn lemma_unpack_pack(fl: Flags)
    ensures
        well_formed(pack(fl)),
        unpack(pack(fl)) == fl,
{
    lemma_pack_bits(fl.sign, fl.zero, fl.aux, fl.parity, fl.carry);
}

/// Packing the conditions of any byte gives the sanitized byte; a byte that
/// already has the register's layout is returned unchanged.
pub proof fn lemma_pack_unpack(b: u8)
    ensures
        pack(unpack(b)) == sanitized(b),
        well_formed(sanitized(b)),
        unpack(sanitized(b)) == unpack(b),
        well_formed(b) ==> sanitized(b) == b,
{
    lemma_sanitized_bits(b);
}

/// Whether the condition selected by `mask` is set in `f`.
pub fn bit_is_set(f: u8, mask: u8) -> (on: bool)
    ensures
        on == (f & mask != 0),
{
    f & mask != 0
}

/// The byte `f` with the condition selected by `mask` set or cleared.
pub fn assign_bit(f: u8, mask: u8, on: bool) -> (r: u8)
    requires
        mask == SIGN_BIT || mask == ZERO_BIT || mask == AUX_BIT || mask == PARITY_BIT || mask
            == CARRY_BIT,
    ensures
        well_formed(f) ==> well_formed(r),
        unpack(r) == (Flags {
            sign: if mask == SIGN_BIT { on } else { unpack(f).sign },
            zero: if mask == ZERO_BIT { on } else { unpack(f).zero },
            aux: if mask == AUX_BIT { on } else { unpack(f).aux },
            parity: if mask == PARITY_BIT { on } else { unpack(f).parity },
            carry: if mask == CARRY_BIT { on } else { unpack(f).carry },
        }),
{
    proof {
        lemma_bit_update(f, mask);
    }
    if on {
        f | mask
    } else {
        f & !mask
    }
}

/// Loads an arbitrary byte into the register's layout.
pub fn sanitize(b: u8) -> (r: u8)
    ensures
        r == sanitized(b),
        well_formed(r),
        unpack(r) == unpack(b),
{
    proof {
        lemma_pack_unpack(b);
    }
    (b & 0xD7) | 0x02
}

} // verus!
