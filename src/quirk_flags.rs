use vstd::prelude::*;

verus! {

/// A set of switches, one per ambiguous instruction, each selecting the
/// historically divergent behaviour of that instruction.
#[derive(Clone, Copy, Debug, PartialEq, Eq, Structural)]
pub struct QuirkFlags {
    bits: u8,
}

impl View for QuirkFlags {
    type V = u8;

    /// The switches as a bit set.
    closed spec fn view(&self) -> u8 {
        self.bits
    }
}

/// Whether every switch of `flag` is on in `flags`.
pub open spec fn has_quirk(flags: QuirkFlags, flag: QuirkFlags) -> bool {
    flags@ & flag@ == flag@
}

/// Whether the switch with bit pattern `bit` is on in `flags`.
pub open spec fn quirk_on(flags: QuirkFlags, bit: u8) -> bool {
    flags@ & bit == bit
}

impl QuirkFlags {
    /// The flag set with every switch off.
    pub closed spec fn spec_none() -> QuirkFlags {
        QuirkFlags { bits: 0x00 }
    }

    /// The flag set with every switch off.
    pub fn none() -> (r: QuirkFlags)
        ensures
            r == QuirkFlags::spec_none(),
            r@ == 0x00,
    {
        QuirkFlags { bits: 0x00 }
    }

    /// `8XY6` shifts `VY` into `VX` instead of shifting `VX` in place.
    pub fn quirk_8xy6() -> (r: QuirkFlags)
        ensures
            r@ == 0x01,
    {
        QuirkFlags { bits: 0x01 }
    }

    /// `8XYE` shifts `VY` into `VX` instead of shifting `VX` in place.
    pub fn quirk_8xye() -> (r: QuirkFlags)
        ensures
            r@ == 0x02,
    {
        QuirkFlags { bits: 0x02 }
    }

    /// `FX1E` reports a 16-bit overflow of the index register in `VF`.
    pub fn quirk_fx1e() -> (r: QuirkFlags)
        ensures
            r@ == 0x04,
    {
        QuirkFlags { bits: 0x04 }
    }

    /// `FX55` advances the index register past the stored registers.
    pub fn quirk_fx55() -> (r: QuirkFlags)
        ensures
            r@ == 0x08,
    {
        QuirkFlags { bits: 0x08 }
    }

    /// `FX65` advances the index register past the loaded registers.
    pub fn quirk_fx65() -> (r: QuirkFlags)
        ensures
            r@ == 0x10,
    {
        QuirkFlags { bits: 0x10 }
    }

    /// Whether every switch of `other` is on in `self`.
    pub fn contains(&self, other: QuirkFlags) -> (r: bool)
        ensures
            r == has_quirk(*self, other),
    {
        self.bits & other.bits == other.bits
    }

    /// The switches that are on in `self` or in `other`.
    pub fn union(&self, other: QuirkFlags) -> (r: QuirkFlags)
        ensures
            r@ == self@ | other@,
    {
        QuirkFlags { bits: self.bits | other.bits }
    }
}

} // verus!
