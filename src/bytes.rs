use vstd::prelude::*;

verus! {

/// Access to the two bytes of a 16-bit value (low byte first).
pub trait SetBytes: Sized {
    spec fn value_of(&self) -> int;

    /// The value with low byte `low` and high byte `hi`.
    fn from_pair(low: u8, hi: u8) -> (r: Self)
        ensures
            r.value_of() == low + 256 * hi;

    /// Replaces the low byte.
    fn set_low(&mut self, value: u8)
        ensures
            final(self).value_of() == (old(self).value_of() / 256) * 256 + value;

    /// Replaces the high byte.
    fn set_high(&mut self, value: u8)
        ensures
            final(self).value_of() == old(self).value_of() % 256 + 256 * value;

    /// The (low, high) bytes.
    fn separate_bytes(&mut self) -> (r: (u8, u8))
        ensures
            r.0 == old(self).value_of() % 256,
            r.1 == old(self).value_of() / 256,
            final(self).value_of() == old(self).value_of();
}

impl SetBytes for u16 {
    open spec fn value_of(&self) -> int {
        *self as int
    }

    fn from_pair(low: u8, hi: u8) -> (r: u16) {
        low as u16 + 256 * hi as u16
    }

    fn set_low(&mut self, value: u8) {
        *self = (*self / 256) * 256 + value as u16;
    }

    fn set_high(&mut self, value: u8) {
        *self = *self % 256 + 256 * value as u16;
    }

    fn separate_bytes(&mut self) -> (r: (u8, u8)) {
        ((*self % 256) as u8, (*self / 256) as u8)
    }
}

} // verus!
