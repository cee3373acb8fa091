//! Devices.

use vstd::prelude::*;

verus! {

/// The set of features that a device is asked for.
#[derive(Clone, Copy, Debug, PartialEq, Eq, Hash, Structural)]
pub enum FeatureLevel {
    /// Feature level 11.0.
    Level11_0,
    /// Feature level 11.1.
    Level11_1,
    /// Feature level 12.0.
    Level12_0,
    /// Feature level 12.1.
    Level12_1,
}

impl FeatureLevel {
    /// The native number of the value.
    pub open spec fn spec_bits(self) -> u32 {
        match self {
            FeatureLevel::Level11_0 => 0xb000,
            FeatureLevel::Level11_1 => 0xb100,
            FeatureLevel::Level12_0 => 0xc000,
            FeatureLevel::Level12_1 => 0xc100,
        }
    }

    /// The native number of the value.
    pub fn bits(self) -> (r: u32)
        ensures
            r == self.spec_bits(),
    {
        match self {
            FeatureLevel::Level11_0 => 0xb000,
            FeatureLevel::Level11_1 => 0xb100,
            FeatureLevel::Level12_0 => 0xc000,
            FeatureLevel::Level12_1 => 0xc100,
        }
    }

    /// The value with the native number `bits`, if there is one.
    pub fn from_bits(bits: u32) -> (r: Option<FeatureLevel>)
        ensures
            match r {
                Some(v) => v.spec_bits() == bits,
                None => forall|v: FeatureLevel| v.spec_bits() != bits,
            },
    {
        if bits == 0xb000 {
            Some(FeatureLevel::Level11_0)
        } else if bits == 0xb100 {
            Some(FeatureLevel::Level11_1)
        } else if bits == 0xc000 {
            Some(FeatureLevel::Level12_0)
        } else if bits == 0xc100 {
            Some(FeatureLevel::Level12_1)
        } else {
            None
        }
    }
}

} // verus!
