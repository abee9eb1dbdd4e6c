use vstd::prelude::*;

verus! {

/// Bit position of the flag. Carry: unsigned overflow of an addition, or the inverted borrow of a subtraction.
pub const CARRY_BIT: u8 = 0;

/// Bit position of the flag. Zero: the last result byte was zero.
pub const ZERO_BIT: u8 = 1;

/// Bit position of the flag. Interrupt disable.
pub const INTERRUPT_BIT: u8 = 2;

/// Bit position of the flag. Decimal mode. Arithmetic stays binary whatever this flag holds.
pub const DECIMAL_BIT: u8 = 3;

/// Bit position of the flag. Break.
pub const BREAK_BIT: u8 = 4;

/// Bit position of the flag. The unused bit, conventionally set.
pub const UNUSED_BIT: u8 = 5;

/// Bit position of the flag. Overflow: signed overflow of an addition or subtraction.
pub const OVERFLOW_BIT: u8 = 6;

/// Bit position of the flag. Negative: bit 7 of the last result byte.
pub const NEGATIVE_BIT: u8 = 7;

/// The status byte of a processor that has just been reset: only the unused bit is set.
pub const RESET_STATUS: u8 = 0x20;

/// Whether the bit at position `bit` of `byte` is set.
pub open spec fn bit_is_set(byte: u8, bit: u8) -> bool {
    byte & (1u8 << bit) != 0
}

/// Computes [`bit_is_set`].
pub fn bit(byte: u8, position: u8) -> (set: bool)
    requires
        position < 8,
    ensures
        set == bit_is_set(byte, position),
{
    (byte & (1u8 << position)) != 0
}

/// `byte` with every bit of `mask` forced to `value`, and the other bits kept.
pub open spec fn with_mask(byte: u8, mask: u8, value: bool) -> u8 {
    if value {
        byte | mask
    } else {
        byte & !mask
    }
}

/// `byte` with the bit at position `bit` forced to `value`.
pub open spec fn with_flag(byte: u8, bit: u8, value: bool) -> u8 {
    with_mask(byte, 1u8 << bit, value)
}

/// The processor status register: eight flags packed into one byte,
/// from bit 0 to bit 7: C Z I D B U V N.
#[derive(Clone, Copy, Debug)]
pub struct Status {
    pub byte: u8,
}

impl Default for Status {
    fn default() -> (status: Self)
        ensures
            status.byte == RESET_STATUS,
    {
        Self { byte: RESET_STATUS }
    }
}

impl Status {
    /// The flag at position `bit`.
    pub open spec fn flag(&self, bit: u8) -> bool {
        bit_is_set(self.byte, bit)
    }

    /// Forces every bit of `mask` to `value` and keeps the other bits.
    #[inline]
    pub fn set_mask(&mut self, value: bool, mask: u8)
        ensures
            final(self).byte == with_mask(old(self).byte, mask, value),
    {
        if value {
            self.byte = self.byte | mask;
        } else {
            self.byte = self.byte & !mask;
        }
    }

    /// Reads the flag at bit 0.
    pub fn carry(&self) -> (set: bool)
        ensures
            set == self.flag(CARRY_BIT),
    {
        bit(self.byte, CARRY_BIT)
    }

    /// Writes the flag at bit 0; every other flag keeps its value.
    pub fn set_carry(&mut self, value: bool)
        ensures
            final(self).byte == with_flag(old(self).byte, CARRY_BIT, value),
    {
        self.set_mask(value, 1u8 << CARRY_BIT)
    }

    /// Reads the flag at bit 1.
    pub fn zero(&self) -> (set: bool)
        ensures
            set == self.flag(ZERO_BIT),
    {
        bit(self.byte, ZERO_BIT)
    }

    /// Writes the flag at bit 1; every other flag keeps its value.
    pub fn set_zero(&mut self, value: bool)
        ensures
            final(self).byte == with_flag(old(self).byte, ZERO_BIT, value),
    {
        self.set_mask(value, 1u8 << ZERO_BIT)
    }

    /// Reads the flag at bit 2.
    pub fn interrupt_disabled(&self) -> (set: bool)
        ensures
            set == self.flag(INTERRUPT_BIT),
    {
        bit(self.byte, INTERRUPT_BIT)
    }

    /// Writes the flag at bit 2; every other flag keeps its value.
    pub fn set_interrupt_disabled(&mut self, value: bool)
        ensures
            final(self).byte == with_flag(old(self).byte, INTERRUPT_BIT, value),
    {
        self.set_mask(value, 1u8 << INTERRUPT_BIT)
    }

    /// Reads the flag at bit 3.
    pub fn decimal(&self) -> (set: bool)
        ensures
            set == self.flag(DECIMAL_BIT),
    {
        bit(self.byte, DECIMAL_BIT)
    }

    /// Writes the flag at bit 3; every other flag keeps its value.
    pub fn set_decimal(&mut self, value: bool)
        ensures
            final(self).byte == with_flag(old(self).byte, DECIMAL_BIT, value),
    {
        self.set_mask(value, 1u8 << DECIMAL_BIT)
    }

    /// Reads the flag at bit 4.
    pub fn break_flag(&self) -> (set: bool)
        ensures
            set == self.flag(BREAK_BIT),
    {
        bit(self.byte, BREAK_BIT)
    }

    /// Writes the flag at bit 4; every other flag keeps its value.
    pub fn set_break(&mut self, value: bool)
        ensures
            final(self).byte == with_flag(old(self).byte, BREAK_BIT, value),
    {
        self.set_mask(value, 1u8 << BREAK_BIT)
    }

    /// Reads the flag at bit 5.
    pub fn _ignored_flag(&self) -> (set: bool)
        ensures
            set == self.flag(UNUSED_BIT),
    {
        bit(self.byte, UNUSED_BIT)
    }

    /// Writes the flag at bit 5; every other flag keeps its value.
    pub fn _set_ignored_flag(&mut self, value: bool)
        ensures
            final(self).byte == with_flag(old(self).byte, UNUSED_BIT, value),
    {
        self.set_mask(value, 1u8 << UNUSED_BIT)
    }

    /// Reads the flag at bit 6.
    pub fn overflow(&self) -> (set: bool)
        ensures
            set == self.flag(OVERFLOW_BIT),
    {
        bit(self.byte, OVERFLOW_BIT)
    }

    /// Writes the flag at bit 6; every other flag keeps its value.
    pub fn set_overflow(&mut self, value: bool)
        ensures
            final(self).byte == with_flag(old(self).byte, OVERFLOW_BIT, value),
    {
        self.set_mask(value, 1u8 << OVERFLOW_BIT)
    }

    /// Reads the flag at bit 7.
    pub fn negative(&self) -> (set: bool)
        ensures
            set == self.flag(NEGATIVE_BIT),
    {
        bit(self.byte, NEGATIVE_BIT)
    }

    /// Writes the flag at bit 7; every other flag keeps its value.
    pub fn set_negative(&mut self, value: bool)
        ensures
            final(self).byte == with_flag(old(self).byte, NEGATIVE_BIT, value),
    {
        self.set_mask(value, 1u8 << NEGATIVE_BIT)
    }
}

/// A flag that has just been written reads back as the value written.
pub proof fn lemma_flag_written_reads_back(byte: u8, bit: u8, value: bool)
    requires
        bit < 8,
    ensures
        bit_is_set(with_flag(byte, bit, value), bit) == value,
{
    assert(((byte | (1u8 << bit)) & (1u8 << bit)) != 0) by (bit_vector)
        requires
            bit < 8,
    ;
    assert(((byte & !(1u8 << bit)) & (1u8 << bit)) == 0) by (bit_vector)
        requires
            bit < 8,
    ;
}

/// Writing one flag leaves every other flag as it was.
pub proof fn lemma_flag_write_keeps_others(byte: u8, bit: u8, value: bool, other: u8)
    requires
        bit < 8,
        other < 8,
        bit != other,
    ensures
        bit_is_set(with_flag(byte, bit, value), other) == bit_is_set(byte, other),
{
    assert(((byte | (1u8 << bit)) & (1u8 << other)) == (byte & (1u8 << other))) by (bit_vector)
        requires
            bit < 8,
            other < 8,
            bit != other,
    ;
    assert(((byte & !(1u8 << bit)) & (1u8 << other)) == (byte & (1u8 << other))) by (bit_vector)
        requires
            bit < 8,
            other < 8,
            bit != other,
    ;
}

/// Writing a flag twice with the same value is the same as writing it once.
pub proof fn lemma_flag_write_idempotent(byte: u8, bit: u8, value: bool)
    ensures
        with_flag(with_flag(byte, bit, value), bit, value) == with_flag(byte, bit, value),
{
    assert(((byte | (1u8 << bit)) | (1u8 << bit)) == (byte | (1u8 << bit))) by (bit_vector);
    assert(((byte & !(1u8 << bit)) & !(1u8 << bit)) == (byte & !(1u8 << bit))) by (bit_vector);
}

} // verus!
