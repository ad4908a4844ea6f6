use vstd::prelude::*;

verus! {

/// The `ExecuteIfOff` flag of the `Options` bitmap shared by the level and
/// color control clusters.
pub const EXECUTE_IF_OFF_BIT: u8 = 0x01;

/// Whether the `ExecuteIfOff` flag is set in an options bitmap.
pub open spec fn has_execute_if_off(bits: u8) -> bool {
    bits & EXECUTE_IF_OFF_BIT == EXECUTE_IF_OFF_BIT
}

/// The `Options` bitmap of the level and color control clusters.
///
/// The bitmap is generated with an all-ones catch-all flag, so every bit of
/// a raw value is a known bit: truncation keeps the value whole, and the
/// `bits` read back are the bits written.
#[derive(Clone, Copy, Debug, PartialEq, Eq, Structural)]
pub struct OptionsBitmap {
    bits: u8,
}

impl View for OptionsBitmap {
    type V = u8;

    closed spec fn view(&self) -> u8 {
        self.bits
    }
}

impl OptionsBitmap {
    /// The bitmap with no flag set, as a value of the specification.
    pub closed spec fn empty_spec() -> OptionsBitmap {
        OptionsBitmap { bits: 0 }
    }

    /// The bitmap with no flag set.
    pub fn empty() -> (o: OptionsBitmap)
        ensures
            o@ == 0,
            o == OptionsBitmap::empty_spec(),
    {
        OptionsBitmap { bits: 0 }
    }

    /// The bitmap with only the `ExecuteIfOff` flag set.
    pub fn execute_if_off() -> (o: OptionsBitmap)
        ensures
            o@ == EXECUTE_IF_OFF_BIT,
    {
        OptionsBitmap { bits: EXECUTE_IF_OFF_BIT }
    }

    /// Builds a bitmap from a raw value, dropping the bits that no flag
    /// declares; since the catch-all flag declares every bit, none is dropped.
    pub fn from_bits_truncate(bits: u8) -> (o: OptionsBitmap)
        ensures
            o@ == bits,
    {
        let all: u8 = 0xff;
        let kept: u8 = bits & all;
        assert(bits & 0xffu8 == bits) by (bit_vector);
        OptionsBitmap { bits: kept }
    }

    /// The raw value of the bitmap.
    pub fn bits(&self) -> (b: u8)
        ensures
            b == self@,
    {
        self.bits
    }

    /// Whether every flag of `other` is set in `self`.
    pub fn contains(&self, other: OptionsBitmap) -> (r: bool)
        ensures
            r == (self@ & other@ == other@),
    {
        self.bits & other.bits == other.bits
    }
}

} // verus!
