//! What a compiled shader tells of itself.

use vstd::prelude::*;

verus! {

/// The kind of a shader, by its native number.
#[derive(Clone, Copy, Debug, PartialEq, Eq, Hash, Structural)]
pub struct VersionType {
    pub bits: u32,
}

impl VersionType {
    /// A pixel shader.
    pub const PIXEL: u32 = 0;

    /// A vertex shader.
    pub const VERTEX: u32 = 1;

    /// A geometry shader.
    pub const GEOMETRY: u32 = 2;

    /// A hull shader.
    pub const HULL: u32 = 3;

    /// A domain shader.
    pub const DOMAIN: u32 = 4;

    /// A compute shader.
    pub const COMPUTE: u32 = 5;

    /// Every bit that names a flag.
    pub const ALL: u32 = 0x7;

    /// Whether every flag of `other` is among the flags of `self`.
    pub open spec fn spec_contains(self, other: VersionType) -> bool {
        self.bits & other.bits == other.bits
    }

    /// Whether only bits that name a flag are set.
    pub open spec fn is_known(self) -> bool {
        self.bits & !VersionType::ALL == 0
    }

    /// No flag.
    pub fn empty() -> (r: VersionType)
        ensures
            r.bits == 0,
    {
        VersionType { bits: 0 }
    }

    /// The bits.
    pub fn bits(&self) -> (r: u32)
        ensures
            r == self.bits,
    {
        self.bits
    }

    /// The flags that `bits` names, or nothing where a bit names no flag.
    pub fn from_bits(bits: u32) -> (r: Option<VersionType>)
        ensures
            r == (if (VersionType { bits }).is_known() {
                Some(VersionType { bits })
            } else {
                None
            }),
    {
        if bits & !VersionType::ALL == 0 {
            Some(VersionType { bits })
        } else {
            None
        }
    }

    /// The flags that `bits` names, without the bits that name none.
    pub fn from_bits_truncate(bits: u32) -> (r: VersionType)
        ensures
            r.bits == bits & VersionType::ALL,
    {
        VersionType { bits: bits & VersionType::ALL }
    }

    /// Whether no flag is set.
    pub fn is_empty(&self) -> (r: bool)
        ensures
            r == (self.bits == 0),
    {
        self.bits == 0
    }

    /// Whether every flag of `other` is among the flags of `self`.
    pub fn contains(&self, other: VersionType) -> (r: bool)
        ensures
            r == self.spec_contains(other),
    {
        self.bits & other.bits == other.bits
    }

    /// The flags of either.
    pub fn union(self, other: VersionType) -> (r: VersionType)
        ensures
            r.bits == self.bits | other.bits,
    {
        VersionType { bits: self.bits | other.bits }
    }
}

/// The version of a shader: its kind in the high half of a word, its major
/// number in the second lowest four bits, its minor number in the lowest.
#[derive(Copy, Clone, Debug, Hash, Eq, PartialEq, Structural)]
pub struct Version {
    version: u32,
}

impl Version {
    /// The word.
    pub closed spec fn view(&self) -> u32 {
        self.version
    }

    /// The word of a version of the given kind and numbers, of which the
    /// low four bits each are kept.
    pub open spec fn word(t: u32, major: u32, minor: u32) -> u32 {
        (t << 16) | ((major & 0xf) << 4) | (minor & 0xf)
    }

    /// The kind: the high half of the word, without the bits that no kind
    /// has.
    pub fn get_type(&self) -> (r: VersionType)
        ensures
            r.bits == ((self@ & 0xffff_0000) >> 16) & VersionType::ALL,
    {
        let bits = (self.version & 0xffff_0000) >> 16;
        VersionType::from_bits_truncate(bits)
    }

    /// The major number.
    pub fn get_major(&self) -> (r: u32)
        ensures
            r == (self@ & 0xf0) >> 4,
            r <= 0xf,
    {
        let v = self.version;
        assert((v & 0xf0) >> 4 <= 0xf) by (bit_vector);
        (self.version & 0x0000_00f0) >> 4
    }

    /// The minor number.
    pub fn get_minor(&self) -> (r: u32)
        ensures
            r == self@ & 0xf,
            r <= 0xf,
    {
        let v = self.version;
        assert(v & 0xf <= 0xf) by (bit_vector);
        self.version & 0xf
    }

    /// The version of the given kind and numbers. Of each number the low
    /// four bits are kept, and they come back as they went in; so does the
    /// kind, if it is one of the six.
    pub fn new(t: VersionType, major: u32, minor: u32) -> (r: Version)
        ensures
            r@ == Version::word(t.bits, major, minor),
            (r@ & 0xf0) >> 4 == major & 0xf,
            r@ & 0xf == minor & 0xf,
            t.bits <= 5 ==> ((r@ & 0xffff_0000) >> 16) & VersionType::ALL == t.bits,
    {
        let tb = t.bits;
        let hi: u32 = tb << 16;
        let mid: u32 = (major & 0xf) << 4;
        let lo: u32 = minor & 0xf;
        assert(hi + mid + lo == hi | mid | lo && hi + mid + lo <= 0xffff_ffff) by (bit_vector)
            requires
                hi == tb << 16,
                mid == (major & 0xf) << 4,
                lo == minor & 0xf,
        ;
        let mut version: u32 = 0;
        version += hi;
        version += mid;
        version += lo;
        assert((version & 0xf0) >> 4 == major & 0xf && version & 0xf == minor & 0xf) by (bit_vector)
            requires
                version == (tb << 16) | ((major & 0xf) << 4) | (minor & 0xf),
        ;
        assert(tb <= 5 ==> ((version & 0xffff_0000) >> 16) & 0x7 == tb) by (bit_vector)
            requires
                version == (tb << 16) | ((major & 0xf) << 4) | (minor & 0xf),
        ;
        Version { version }
    }

    /// The version that a word holds.
    pub fn from_bits(version: u32) -> (r: Version)
        ensures
            r@ == version,
    {
        Version { version }
    }

    /// The word.
    pub fn into_bits(self) -> (r: u32)
        ensures
            r == self@,
    {
        self.version
    }
}

/// The type of the data in a register.
#[derive(Clone, Copy, Debug, PartialEq, Eq, Hash, Structural)]
pub enum RegisterComponentType {
    /// Not known.
    Unknown,
    /// Unsigned 32-bit integers.
    Uint32,
    /// Signed 32-bit integers.
    Sint32,
    /// 32-bit floats.
    Float32,
}

impl RegisterComponentType {
    /// The native number of the value.
    pub open spec fn spec_bits(self) -> u32 {
        match self {
            RegisterComponentType::Unknown => 0,
            RegisterComponentType::Uint32 => 1,
            RegisterComponentType::Sint32 => 2,
            RegisterComponentType::Float32 => 3,
        }
    }

    /// The native number of the value.
    pub fn bits(self) -> (r: u32)
        ensures
            r == self.spec_bits(),
    {
        match self {
            RegisterComponentType::Unknown => 0,
            RegisterComponentType::Uint32 => 1,
            RegisterComponentType::Sint32 => 2,
            RegisterComponentType::Float32 => 3,
        }
    }

    /// The value with the native number `bits`, if there is one.
    pub fn from_bits(bits: u32) -> (r: Option<RegisterComponentType>)
        ensures
            match r {
                Some(v) => v.spec_bits() == bits,
                None => forall|v: RegisterComponentType| v.spec_bits() != bits,
            },
    {
        if bits == 0 {
            Some(RegisterComponentType::Unknown)
        } else if bits == 1 {
            Some(RegisterComponentType::Uint32)
        } else if bits == 2 {
            Some(RegisterComponentType::Sint32)
        } else if bits == 3 {
            Some(RegisterComponentType::Float32)
        } else {
            None
        }
    }
}

} // verus!
