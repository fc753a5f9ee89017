//! Vendor prefixes, as a set of flags.

use vstd::prelude::*;

verus! {

/// A set of vendor prefixes; each bit is one prefix.
#[derive(Clone, Copy, Debug, PartialEq, Eq, Structural)]
pub struct VendorPrefix {
    pub bits: u8,
}

/// No prefix (the standard property name).
pub const PREFIX_NONE: u8 = 1;
/// `-webkit-`.
pub const PREFIX_WEBKIT: u8 = 2;
/// `-moz-`.
pub const PREFIX_MOZ: u8 = 4;
/// `-ms-`.
pub const PREFIX_MS: u8 = 8;
/// `-o-`.
pub const PREFIX_O: u8 = 16;

impl VendorPrefix {
    /// The set with the flags `bits`.
    pub fn from_bits(bits: u8) -> (p: VendorPrefix)
        ensures
            p.bits == bits,
    {
        VendorPrefix { bits }
    }

    /// The set holding only the unprefixed name.
    pub fn none() -> (p: VendorPrefix)
        ensures
            p.bits == PREFIX_NONE,
    {
        VendorPrefix { bits: PREFIX_NONE }
    }

    /// Every flag of `other` is in `self`.
    pub open spec fn spec_contains(self, other: VendorPrefix) -> bool {
        self.bits & other.bits == other.bits
    }

    /// Every flag of `other` is in `self`.
    pub fn contains(&self, other: VendorPrefix) -> (r: bool)
        ensures
            r == self.spec_contains(other),
    {
        self.bits & other.bits == other.bits
    }

    /// No flag is set.
    pub fn is_empty(&self) -> (r: bool)
        ensures
            r == (self.bits == 0),
    {
        self.bits == 0
    }

    /// The flags of both sets.
    pub fn union(&self, other: VendorPrefix) -> (r: VendorPrefix)
        ensures
            r.bits == self.bits | other.bits,
    {
        VendorPrefix { bits: self.bits | other.bits }
    }

    /// The flags common to both sets.
    pub fn intersection(&self, other: VendorPrefix) -> (r: VendorPrefix)
        ensures
            r.bits == self.bits & other.bits,
    {
        VendorPrefix { bits: self.bits & other.bits }
    }

    /// The flags of `self` that are not in `other`.
    pub fn difference(&self, other: VendorPrefix) -> (r: VendorPrefix)
        ensures
            r.bits == self.bits & !other.bits,
    {
        VendorPrefix { bits: self.bits & !other.bits }
    }
}

} // verus!
