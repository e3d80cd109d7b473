//! The modifier keys that accompany a key event, kept as a bit mask.

use vstd::prelude::*;

verus! {

pub const SHIFT_BITS: u8 = 0b0000_0001;

pub const CONTROL_BITS: u8 = 0b0000_0010;

pub const ALT_BITS: u8 = 0b0000_0100;

pub const SUPER_BITS: u8 = 0b0000_1000;

pub const HYPER_BITS: u8 = 0b0001_0000;

pub const META_BITS: u8 = 0b0010_0000;

/// Every named modifier bit.
pub const ALL_MODIFIER_BITS: u8 = 0b0011_1111;

/// How many modifiers have a name.
pub const MODIFIER_COUNT: usize = 6;

/// The bit of the `i`-th named modifier. A mask is always walked in this
/// order: shift, control, alt, super, hyper, meta.
pub open spec fn flag_bits(i: int) -> u8 {
    if i == 0 {
        SHIFT_BITS
    } else if i == 1 {
        CONTROL_BITS
    } else if i == 2 {
        ALT_BITS
    } else if i == 3 {
        SUPER_BITS
    } else if i == 4 {
        HYPER_BITS
    } else {
        META_BITS
    }
}

/// A set of modifier keys. Bits without a name carry no meaning and are
/// ignored wherever a mask is walked.
#[derive(Clone, Copy, Debug, PartialEq, Eq, Hash, Structural)]
pub struct KeyModifiers {
    pub bits: u8,
}

impl KeyModifiers {
    /// Whether the `i`-th named modifier is in the set.
    pub open spec fn has(self, i: int) -> bool {
        self.bits & flag_bits(i) != 0
    }

    /// Whether the mask is exactly one named modifier.
    pub open spec fn is_single_flag(self) -> bool {
        self.bits == SHIFT_BITS || self.bits == CONTROL_BITS || self.bits == ALT_BITS
            || self.bits == SUPER_BITS || self.bits == HYPER_BITS || self.bits == META_BITS
    }

    pub open spec fn spec_contains(self, other: KeyModifiers) -> bool {
        self.bits & other.bits == other.bits
    }

    /// No modifier.
    pub fn empty() -> (r: KeyModifiers)
        ensures
            r.bits == 0,
    {
        KeyModifiers { bits: 0 }
    }

    /// Shift alone.
    pub fn shift() -> (r: KeyModifiers)
        ensures
            r.bits == SHIFT_BITS,
    {
        KeyModifiers { bits: SHIFT_BITS }
    }

    /// Control alone.
    pub fn control() -> (r: KeyModifiers)
        ensures
            r.bits == CONTROL_BITS,
    {
        KeyModifiers { bits: CONTROL_BITS }
    }

    /// Alt alone.
    pub fn alt() -> (r: KeyModifiers)
        ensures
            r.bits == ALT_BITS,
    {
        KeyModifiers { bits: ALT_BITS }
    }

    /// The `i`-th named modifier alone.
    pub fn nth_flag(i: usize) -> (r: KeyModifiers)
        requires
            i < MODIFIER_COUNT,
        ensures
            r.bits == flag_bits(i as int),
            r.is_single_flag(),
    {
        let bits: u8 = if i == 0 {
            SHIFT_BITS
        } else if i == 1 {
            CONTROL_BITS
        } else if i == 2 {
            ALT_BITS
        } else if i == 3 {
            SUPER_BITS
        } else if i == 4 {
            HYPER_BITS
        } else {
            META_BITS
        };
        KeyModifiers { bits }
    }

    /// The set made of the named bits of `bits`; the others are dropped.
    pub fn from_bits_truncate(bits: u8) -> (r: KeyModifiers)
        ensures
            r.bits == bits & ALL_MODIFIER_BITS,
    {
        KeyModifiers { bits: bits & ALL_MODIFIER_BITS }
    }

    /// The underlying bit mask.
    pub fn bits(&self) -> (r: u8)
        ensures
            r == self.bits,
    {
        self.bits
    }

    /// Whether the set holds no bit at all.
    pub fn is_empty(&self) -> (r: bool)
        ensures
            r == (self.bits == 0),
    {
        self.bits == 0
    }

    /// Whether every bit of `other` is in `self`.
    pub fn contains(&self, other: KeyModifiers) -> (r: bool)
        ensures
            r == self.spec_contains(other),
    {
        self.bits & other.bits == other.bits
    }

    /// Whether the two sets share a bit.
    pub fn intersects(&self, other: KeyModifiers) -> (r: bool)
        ensures
            r == (self.bits & other.bits != 0),
    {
        self.bits & other.bits != 0
    }

    /// The bits of either set.
    pub fn union(self, other: KeyModifiers) -> (r: KeyModifiers)
        ensures
            r.bits == self.bits | other.bits,
    {
        KeyModifiers { bits: self.bits | other.bits }
    }

    /// The bits that are in exactly one of the two sets.
    pub fn symmetric_difference(self, other: KeyModifiers) -> (r: KeyModifiers)
        ensures
            r.bits == self.bits ^ other.bits,
    {
        KeyModifiers { bits: self.bits ^ other.bits }
    }
}

impl Default for KeyModifiers {
    fn default() -> (r: KeyModifiers)
        ensures
            r.bits == 0,
    {
        KeyModifiers { bits: 0 }
    }
}

} // verus!
