//! Terminal capabilities, what has been detected of them, and the policy
//! that decides which of them are emulated.

use vstd::prelude::*;

verus! {

/// Bit of the capability "the terminal reports key releases itself".
pub const KEY_RELEASE_BITS: u8 = 0b0000_0001;

/// Bit of the capability "the terminal reports modifier keys on their own".
pub const MODIFIER_BITS: u8 = 0b0000_0010;

/// Both capability bits.
pub const ALL_BITS: u8 = 0b0000_0011;

/// A set of terminal capabilities, kept as a bit mask. It describes both what
/// has been detected and what is to be emulated.
#[derive(Clone, Copy, Debug, PartialEq, Eq, Structural)]
pub struct Capability {
    pub bits: u8,
}

impl Capability {
    /// The set this value stands for is read off its two low bits.
    pub open spec fn has_key_release(self) -> bool {
        self.bits & KEY_RELEASE_BITS == KEY_RELEASE_BITS
    }

    pub open spec fn has_modifier(self) -> bool {
        self.bits & MODIFIER_BITS == MODIFIER_BITS
    }

    pub open spec fn spec_contains(self, other: Capability) -> bool {
        self.bits & other.bits == other.bits
    }

    /// No capability.
    pub fn empty() -> (r: Capability)
        ensures
            r.bits == 0,
    {
        Capability { bits: 0 }
    }

    /// Key releases alone.
    pub fn key_release() -> (r: Capability)
        ensures
            r.bits == KEY_RELEASE_BITS,
    {
        Capability { bits: KEY_RELEASE_BITS }
    }

    /// Modifier keys alone.
    pub fn modifier() -> (r: Capability)
        ensures
            r.bits == MODIFIER_BITS,
    {
        Capability { bits: MODIFIER_BITS }
    }

    /// Both capabilities.
    pub fn all() -> (r: Capability)
        ensures
            r.bits == ALL_BITS,
    {
        Capability { bits: ALL_BITS }
    }

    /// The set made of the known bits of `bits`; unknown bits are dropped.
    pub fn from_bits_truncate(bits: u8) -> (r: Capability)
        ensures
            r.bits == bits & ALL_BITS,
    {
        Capability { bits: bits & ALL_BITS }
    }

    /// The underlying bit mask.
    pub fn bits(&self) -> (r: u8)
        ensures
            r == self.bits,
    {
        self.bits
    }

    /// Whether the set holds no bit at all.
    pub fn is_empty(&self) -> (r: bool)
        ensures
            r == (self.bits == 0),
    {
        self.bits == 0
    }

    /// Whether every bit of `other` is in `self`.
    pub fn contains(&self, other: Capability) -> (r: bool)
        ensures
            r == self.spec_contains(other),
    {
        self.bits & other.bits == other.bits
    }

    /// The bits of either set.
    pub fn union(self, other: Capability) -> (r: Capability)
        ensures
            r.bits == self.bits | other.bits,
    {
        Capability { bits: self.bits | other.bits }
    }

    /// The bits of `self` that are not in `other`.
    pub fn difference(self, other: Capability) -> (r: Capability)
        ensures
            r.bits == self.bits & !other.bits,
    {
        Capability { bits: self.bits & !other.bits }
    }

    /// The known capabilities that are not in `self`.
    pub fn complement(self) -> (r: Capability)
        ensures
            r.bits == !self.bits & ALL_BITS,
    {
        Capability { bits: !self.bits & ALL_BITS }
    }
}

impl Default for Capability {
    /// No capability.
    fn default() -> (r: Capability)
        ensures
            r.bits == 0,
    {
        Capability { bits: 0 }
    }
}

/// What the terminal has been seen to report by itself. A bit, once set,
/// stays set until the record is cleared as a whole.
#[derive(Clone, Copy, Debug, PartialEq, Eq, Structural)]
pub struct DetectedCapabilities(pub Capability);

impl DetectedCapabilities {
    /// Nothing detected yet.
    pub fn new() -> (r: DetectedCapabilities)
        ensures
            r.0.bits == 0,
    {
        DetectedCapabilities(Capability { bits: 0 })
    }
}

impl Default for DetectedCapabilities {
    fn default() -> (r: DetectedCapabilities)
        ensures
            r.0.bits == 0,
    {
        DetectedCapabilities(Capability { bits: 0 })
    }
}

/// Keyboard emulation policy.
#[derive(Clone, Copy, Debug, PartialEq, Eq, Structural)]
pub enum EmulationPolicy {
    /// Emulate every capability that has not been detected.
    Automatic,
    /// Emulate the given capabilities, save those that have been detected.
    Manual(Capability),
}

impl Default for EmulationPolicy {
    fn default() -> (r: EmulationPolicy)
        ensures
            r == EmulationPolicy::Automatic,
    {
        EmulationPolicy::Automatic
    }
}

impl EmulationPolicy {
    /// The capabilities to emulate under this policy, given what was
    /// detected: under the automatic policy the two capabilities save those
    /// detected, under a manual policy those asked for save those detected.
    /// Either way the result is a set of the two capabilities: bits that
    /// name no capability are in no effective set.
    pub open spec fn effective(self, detected: DetectedCapabilities) -> Capability {
        match self {
            EmulationPolicy::Automatic => Capability { bits: !detected.0.bits & ALL_BITS },
            EmulationPolicy::Manual(wanted) => Capability {
                bits: wanted.bits & !detected.0.bits & ALL_BITS,
            },
        }
    }

    /// Return which capabilities to emulate based on the detected capabilities.
    pub fn emulate_capabilities(&self, detected: &DetectedCapabilities) -> (r: Capability)
        ensures
            r == self.effective(*detected),
            r.bits & detected.0.bits == 0,
            r.bits & !ALL_BITS == 0,
    {
        proof {
            lemma_effective_avoids_detected(*self, *detected);
        }
        match self {
            EmulationPolicy::Automatic => detected.0.complement(),
            EmulationPolicy::Manual(wanted) => Capability::from_bits_truncate(
                wanted.difference(detected.0).bits(),
            ),
        }
    }
}

/// A capability that the terminal provides is never emulated, whatever the
/// policy, and what is emulated is a set of the two capabilities, whatever
/// bits the policy and the record of what was detected hold.
pub proof fn lemma_effective_avoids_detected(policy: EmulationPolicy, detected: DetectedCapabilities)
    ensures
        policy.effective(detected).bits & detected.0.bits == 0,
        policy.effective(detected).bits & !ALL_BITS == 0,
        detected.0.has_key_release() ==> !policy.effective(detected).has_key_release(),
        detected.0.has_modifier() ==> !policy.effective(detected).has_modifier(),
{
    let d = detected.0.bits;
    assert((!d & 3u8) & d == 0 && (!d & 3u8) & !3u8 == 0) by (bit_vector);
    assert(d & 1u8 == 1u8 ==> (!d & 3u8) & 1u8 != 1u8) by (bit_vector);
    assert(d & 2u8 == 2u8 ==> (!d & 3u8) & 2u8 != 2u8) by (bit_vector);
    match policy {
        EmulationPolicy::Automatic => {},
        EmulationPolicy::Manual(wanted) => {
            let w = wanted.bits;
            assert((w & !d & 3u8) & d == 0 && (w & !d & 3u8) & !3u8 == 0) by (bit_vector);
            assert(d & 1u8 == 1u8 ==> (w & !d & 3u8) & 1u8 != 1u8) by (bit_vector);
            assert(d & 2u8 == 2u8 ==> (w & !d & 3u8) & 2u8 != 2u8) by (bit_vector);
        },
    }
}

/// Under a manual policy a capability is emulated exactly when it was asked
/// for and has not been detected.
pub proof fn lemma_manual_is_difference(wanted: Capability, detected: DetectedCapabilities)
    ensures
        EmulationPolicy::Manual(wanted).effective(detected).has_key_release() == (
        wanted.has_key_release() && !detected.0.has_key_release()),
        EmulationPolicy::Manual(wanted).effective(detected).has_modifier() == (
        wanted.has_modifier() && !detected.0.has_modifier()),
{
    let d = detected.0.bits;
    let w = wanted.bits;
    assert(((w & !d & 3u8) & 1u8 == 1u8) == (w & 1u8 == 1u8 && !(d & 1u8 == 1u8))) by (bit_vector);
    assert(((w & !d & 3u8) & 2u8 == 2u8) == (w & 2u8 == 2u8 && !(d & 2u8 == 2u8))) by (bit_vector);
}

/// Under the automatic policy a known capability is emulated exactly when it
/// has not been detected.
pub proof fn lemma_automatic_is_complement(detected: DetectedCapabilities)
    ensures
        EmulationPolicy::Automatic.effective(detected).has_key_release()
            == !detected.0.has_key_release(),
        EmulationPolicy::Automatic.effective(detected).has_modifier() == !detected.0.has_modifier(),
{
    let d = detected.0.bits;
    assert(((!d & 3u8) & 1u8 == 1u8) == !(d & 1u8 == 1u8)) by (bit_vector);
    assert(((!d & 3u8) & 2u8 == 2u8) == !(d & 2u8 == 2u8)) by (bit_vector);
}

} // verus!
