//! Events.

use vstd::prelude::*;

verus! {

/// What the holder of an event may do with it.
#[derive(Clone, Copy, Debug, PartialEq, Eq, Hash, Structural)]
pub struct AccessRight {
    pub bits: u32,
}

impl AccessRight {
    /// Wait for it.
    pub const SYNCHRONIZE: u32 = 0x0010_0000;

    /// Everything.
    pub const ALL_ACCESS: u32 = 0x1f_0003;

    /// Set and reset it.
    pub const MODIFY_STATE: u32 = 0x0002;

    /// Every bit that names a flag.
    pub const ALL: u32 = 0x1f_0003;

    /// Whether every flag of `other` is among the flags of `self`.
    pub open spec fn spec_contains(self, other: AccessRight) -> bool {
        self.bits & other.bits == other.bits
    }

    /// Whether only bits that name a flag are set.
    pub open spec fn is_known(self) -> bool {
        self.bits & !AccessRight::ALL == 0
    }

    /// No flag.
    pub fn empty() -> (r: AccessRight)
        ensures
            r.bits == 0,
    {
        AccessRight { bits: 0 }
    }

    /// The bits.
    pub fn bits(&self) -> (r: u32)
        ensures
            r == self.bits,
    {
        self.bits
    }

    /// The flags that `bits` names, or nothing where a bit names no flag.
    pub fn from_bits(bits: u32) -> (r: Option<AccessRight>)
        ensures
            r == (if (AccessRight { bits }).is_known() {
                Some(AccessRight { bits })
            } else {
                None
            }),
    {
        if bits & !AccessRight::ALL == 0 {
            Some(AccessRight { bits })
        } else {
            None
        }
    }

    /// The flags that `bits` names, without the bits that name none.
    pub fn from_bits_truncate(bits: u32) -> (r: AccessRight)
        ensures
            r.bits == bits & AccessRight::ALL,
    {
        AccessRight { bits: bits & AccessRight::ALL }
    }

    /// Whether no flag is set.
    pub fn is_empty(&self) -> (r: bool)
        ensures
            r == (self.bits == 0),
    {
        self.bits == 0
    }

    /// Whether every flag of `other` is among the flags of `self`.
    pub fn contains(&self, other: AccessRight) -> (r: bool)
        ensures
            r == self.spec_contains(other),
    {
        self.bits & other.bits == other.bits
    }

    /// The flags of either.
    pub fn union(self, other: AccessRight) -> (r: AccessRight)
        ensures
            r.bits == self.bits | other.bits,
    {
        AccessRight { bits: self.bits | other.bits }
    }
}

impl Default for AccessRight {
    /// Everything.
    fn default() -> (r: AccessRight)
        ensures
            r.bits == 0x1f_0003,
    {
        AccessRight { bits: 0x1f_0003 }
    }
}

/// How an event is made.
#[derive(Clone, Copy, Debug, PartialEq, Eq, Hash, Structural)]
pub struct Flag {
    pub bits: u32,
}

impl Flag {
    /// It is set from the start.
    pub const INITIAL_SET: u32 = 0x2;

    /// It stays set until it is reset.
    pub const MANUAL_RESET: u32 = 0x1;

    /// Neither.
    pub const NONE: u32 = 0;

    /// Every bit that names a flag.
    pub const ALL: u32 = 0x3;

    /// Whether every flag of `other` is among the flags of `self`.
    pub open spec fn spec_contains(self, other: Flag) -> bool {
        self.bits & other.bits == other.bits
    }

    /// Whether only bits that name a flag are set.
    pub open spec fn is_known(self) -> bool {
        self.bits & !Flag::ALL == 0
    }

    /// No flag.
    pub fn empty() -> (r: Flag)
        ensures
            r.bits == 0,
    {
        Flag { bits: 0 }
    }

    /// The bits.
    pub fn bits(&self) -> (r: u32)
        ensures
            r == self.bits,
    {
        self.bits
    }

    /// The flags that `bits` names, or nothing where a bit names no flag.
    pub fn from_bits(bits: u32) -> (r: Option<Flag>)
        ensures
            r == (if (Flag { bits }).is_known() {
                Some(Flag { bits })
            } else {
                None
            }),
    {
        if bits & !Flag::ALL == 0 {
            Some(Flag { bits })
        } else {
            None
        }
    }

    /// The flags that `bits` names, without the bits that name none.
    pub fn from_bits_truncate(bits: u32) -> (r: Flag)
        ensures
            r.bits == bits & Flag::ALL,
    {
        Flag { bits: bits & Flag::ALL }
    }

    /// Whether no flag is set.
    pub fn is_empty(&self) -> (r: bool)
        ensures
            r == (self.bits == 0),
    {
        self.bits == 0
    }

    /// Whether every flag of `other` is among the flags of `self`.
    pub fn contains(&self, other: Flag) -> (r: bool)
        ensures
            r == self.spec_contains(other),
    {
        self.bits & other.bits == other.bits
    }

    /// The flags of either.
    pub fn union(self, other: Flag) -> (r: Flag)
        ensures
            r.bits == self.bits | other.bits,
    {
        Flag { bits: self.bits | other.bits }
    }
}

impl Default for Flag {
    /// Neither.
    fn default() -> (r: Flag)
        ensures
            r.bits == 0,
    {
        Flag { bits: 0 }
    }
}

/// The time that a wait without end waits for.
pub const INFINITE: u32 = 0xffff_ffff;

/// What a wait has come to: it is over where the answer is zero, and
/// otherwise the answer tells why it is not.
pub fn from_wait(answer: u32) -> (r: Result<(), u32>)
    ensures
        r == (if answer == 0 {
            Ok::<(), u32>(())
        } else {
            Err::<(), u32>(answer)
        }),
{
    if answer == 0 {
        Ok(())
    } else {
        Err(answer)
    }
}

} // verus!
