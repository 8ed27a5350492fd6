//! The 16-bit shift register that the arcade board hangs on the processor's
//! ports: two bytes are latched one after the other and an eight-bit window
//! is read back at a bit offset.

use vstd::prelude::*;

verus! {

/// The word after `value` has been shifted in: the old high byte moves down
/// and `value` becomes the new high byte.
pub open spec fn inserted(data: u16, value: u8) -> u16 {
    (data >> 8) | ((value as u16) << 8)
}

/// The eight-bit window of `data` that starts `offset` bits below the top.
pub open spec fn window(data: u16, offset: u8) -> u8
    recommends
        offset <= 8,
{
    ((data >> ((8 - offset) as u16)) & 0xFF) as u8
}

/// The byte shifted in last is the high byte of the word and the one shifted
/// in before it the low byte. With offset 0 the window shows the byte shifted
/// in last, with offset 8 the byte that was the high byte before.
pub proof fn lemma_last_inserted_is_high_byte(data: u16, value: u8)
    ensures
        inserted(data, value) >> 8 == value,
        inserted(data, value) & 0xFF == data >> 8,
        window(inserted(data, value), 0) == value,
        window(inserted(data, value), 8) == data >> 8,
{
    assert((((data >> 8) | ((value as u16) << 8)) >> 8) == value && (((data >> 8) | ((value
        as u16) << 8)) & 0xFF) == data >> 8 && (((((data >> 8) | ((value as u16) << 8)) >> 8u16)
        & 0xFF) as u8) == value && (((((data >> 8) | ((value as u16) << 8)) >> 0u16) & 0xFF)
        as u8) == data >> 8) by (bit_vector);
}

pub struct ShiftRegister {
    data: u16,
    offset: u8,
}

impl ShiftRegister {
    /// The 16-bit word held by the register.
    pub closed spec fn data(&self) -> u16 {
        self.data
    }

    /// The bit offset of the read window.
    pub closed spec fn offset(&self) -> u8 {
        self.offset
    }

    /// The window lies within the word: the offset is at most 8.
    #[verifier::type_invariant]
    pub closed spec fn inv(&self) -> bool {
        self.offset <= 8
    }

    pub fn new() -> (sr: ShiftRegister)
        ensures
            sr.data() == 0,
            sr.offset() == 0,
    {
        ShiftRegister { data: 0, offset: 0 }
    }

    /// Latches the read offset: 0 shows the byte shifted in last, 8 the byte
    /// shifted in before it.
    pub fn write_offset(&mut self, offset: u8)
        requires
            offset <= 8,
        ensures
            final(self).offset() == offset,
            final(self).data() == old(self).data(),
    {
        self.offset = offset;
    }

    pub fn result(&self) -> (r: u8)
        ensures
            self.offset() <= 8,
            r == window(self.data(), self.offset()),
    {
        proof {
            use_type_invariant(self);
        }
        let shift: u16 = (8 - self.offset) as u16;
        let data: u16 = self.data;
        assert((data >> shift) & 0xFF <= 0xFF) by (bit_vector);
        ((data >> shift) & 0xFF) as u8
    }

    pub fn insert(&mut self, value: u8)
        ensures
            final(self).data() == inserted(old(self).data(), value),
            final(self).offset() == old(self).offset(),
    {
        proof {
            use_type_invariant(&*self);
        }
        self.data = (self.data >> 8) | ((value as u16) << 8);
    }
}

} // verus!
