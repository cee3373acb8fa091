//! The rasterizer state.

use vstd::prelude::*;
use crate::format::Bool;
use crate::pipeline::sampler::F32_ZERO;

verus! {

/// How triangles are filled.
#[derive(Clone, Copy, Debug, PartialEq, Eq, Hash, Structural)]
pub enum FillMode {
    /// Only their edges are drawn.
    Wireframe,
    /// They are filled.
    Solid,
}

impl FillMode {
    /// The native number of the value.
    pub open spec fn spec_bits(self) -> u32 {
        match self {
            FillMode::Wireframe => 2,
            FillMode::Solid => 3,
        }
    }

    /// The native number of the value.
    pub fn bits(self) -> (r: u32)
        ensures
            r == self.spec_bits(),
    {
        match self {
            FillMode::Wireframe => 2,
            FillMode::Solid => 3,
        }
    }

    /// The value with the native number `bits`, if there is one.
    pub fn from_bits(bits: u32) -> (r: Option<FillMode>)
        ensures
            match r {
                Some(v) => v.spec_bits() == bits,
                None => forall|v: FillMode| v.spec_bits() != bits,
            },
    {
        if bits == 2 {
            Some(FillMode::Wireframe)
        } else if bits == 3 {
            Some(FillMode::Solid)
        } else {
            None
        }
    }
}

/// Which triangles are not drawn.
#[derive(Clone, Copy, Debug, PartialEq, Eq, Hash, Structural)]
pub enum CullMode {
    /// All triangles are drawn.
    Nothing,
    /// Those that face the viewer.
    Front,
    /// Those that face away.
    Back,
}

impl CullMode {
    /// The native number of the value.
    pub open spec fn spec_bits(self) -> u32 {
        match self {
            CullMode::Nothing => 1,
            CullMode::Front => 2,
            CullMode::Back => 3,
        }
    }

    /// The native number of the value.
    pub fn bits(self) -> (r: u32)
        ensures
            r == self.spec_bits(),
    {
        match self {
            CullMode::Nothing => 1,
            CullMode::Front => 2,
            CullMode::Back => 3,
        }
    }

    /// The value with the native number `bits`, if there is one.
    pub fn from_bits(bits: u32) -> (r: Option<CullMode>)
        ensures
            match r {
                Some(v) => v.spec_bits() == bits,
                None => forall|v: CullMode| v.spec_bits() != bits,
            },
    {
        if bits == 1 {
            Some(CullMode::Nothing)
        } else if bits == 2 {
            Some(CullMode::Front)
        } else if bits == 3 {
            Some(CullMode::Back)
        } else {
            None
        }
    }
}

/// Whether rasterization is conservative.
#[derive(Clone, Copy, Debug, PartialEq, Eq, Hash, Structural)]
pub enum ConservativeMode {
    /// It is not.
    Off,
    /// It is.
    On,
}

impl ConservativeMode {
    /// The native number of the value.
    pub open spec fn spec_bits(self) -> u32 {
        match self {
            ConservativeMode::Off => 0,
            ConservativeMode::On => 1,
        }
    }

    /// The native number of the value.
    pub fn bits(self) -> (r: u32)
        ensures
            r == self.spec_bits(),
    {
        match self {
            ConservativeMode::Off => 0,
            ConservativeMode::On => 1,
        }
    }

    /// The value with the native number `bits`, if there is one.
    pub fn from_bits(bits: u32) -> (r: Option<ConservativeMode>)
        ensures
            match r {
                Some(v) => v.spec_bits() == bits,
                None => forall|v: ConservativeMode| v.spec_bits() != bits,
            },
    {
        if bits == 0 {
            Some(ConservativeMode::Off)
        } else if bits == 1 {
            Some(ConservativeMode::On)
        } else {
            None
        }
    }
}

/// The rasterizer state. The fields that hold fractions hold them as the
/// bits of 32-bit floats.
#[derive(Copy, Clone, Debug, PartialEq, Eq, Structural)]
pub struct RasterizerDesc {
    pub fill: FillMode,
    pub cull: CullMode,
    pub front_ccw: Bool,
    pub depth_bias: i32,
    pub depth_bias_clamp: u32,
    pub slope_scaled_depth_bias: u32,
    pub depth_clip: Bool,
    pub multisample: Bool,
    pub antialiased_line: Bool,
    pub forced_sample_count: u32,
    pub conservative_raster: ConservativeMode,
}

impl RasterizerDesc {
    /// The state that is taken where none is given: solid triangles whose
    /// front is counter-clockwise, without the backs, without bias,
    /// clipping, multisampling and antialiasing.
    pub open spec fn spec_default() -> RasterizerDesc {
        RasterizerDesc {
            fill: FillMode::Solid,
            cull: CullMode::Back,
            front_ccw: Bool::of(true),
            depth_bias: 0,
            depth_bias_clamp: F32_ZERO,
            slope_scaled_depth_bias: F32_ZERO,
            depth_clip: Bool::of(false),
            multisample: Bool::of(false),
            antialiased_line: Bool::of(false),
            forced_sample_count: 0,
            conservative_raster: ConservativeMode::Off,
        }
    }
}

impl Default for RasterizerDesc {
    /// Solid triangles whose front is counter-clockwise, without the backs,
    /// without bias, clipping, multisampling and antialiasing.
    fn default() -> (r: RasterizerDesc)
        ensures
            r == RasterizerDesc::spec_default(),
    {
        RasterizerDesc {
            fill: FillMode::Solid,
            cull: CullMode::Back,
            front_ccw: Bool::new(true),
            depth_bias: 0,
            depth_bias_clamp: F32_ZERO,
            slope_scaled_depth_bias: F32_ZERO,
            depth_clip: Bool::new(false),
            multisample: Bool::new(false),
            antialiased_line: Bool::new(false),
            forced_sample_count: 0,
            conservative_raster: ConservativeMode::Off,
        }
    }
}

} // verus!
