//! Depth and stencil states.

use vstd::prelude::*;
use crate::format::Bool;
use crate::pipeline::ComparisonFunc;

verus! {

/// Which part of the depth buffer may be written.
#[derive(Clone, Copy, Debug, PartialEq, Eq, Hash, Structural)]
pub enum DepthWriteMask {
    /// None of it.
    Zero,
    /// All of it.
    All,
}

impl DepthWriteMask {
    /// The native number of the value.
    pub open spec fn spec_bits(self) -> u32 {
        match self {
            DepthWriteMask::Zero => 0,
            DepthWriteMask::All => 1,
        }
    }

    /// The native number of the value.
    pub fn bits(self) -> (r: u32)
        ensures
            r == self.spec_bits(),
    {
        match self {
            DepthWriteMask::Zero => 0,
            DepthWriteMask::All => 1,
        }
    }

    /// The value with the native number `bits`, if there is one.
    pub fn from_bits(bits: u32) -> (r: Option<DepthWriteMask>)
        ensures
            match r {
                Some(v) => v.spec_bits() == bits,
                None => forall|v: DepthWriteMask| v.spec_bits() != bits,
            },
    {
        if bits == 0 {
            Some(DepthWriteMask::Zero)
        } else if bits == 1 {
            Some(DepthWriteMask::All)
        } else {
            None
        }
    }
}

/// What is done to the stencil value.
#[derive(Clone, Copy, Debug, PartialEq, Eq, Hash, Structural)]
pub enum StencilOp {
    /// It is kept.
    Keep,
    /// It is set to zero.
    Zero,
    /// It is replaced by the reference value.
    Replace,
    /// It is incremented and clamped.
    IncrSat,
    /// It is decremented and clamped.
    DecrSat,
    /// Its bits are inverted.
    Invert,
    /// It is incremented and wraps.
    Incr,
    /// It is decremented and wraps.
    Decr,
}

impl StencilOp {
    /// The native number of the value.
    pub open spec fn spec_bits(self) -> u32 {
        match self {
            StencilOp::Keep => 1,
            StencilOp::Zero => 2,
            StencilOp::Replace => 3,
            StencilOp::IncrSat => 4,
            StencilOp::DecrSat => 5,
            StencilOp::Invert => 6,
            StencilOp::Incr => 7,
            StencilOp::Decr => 8,
        }
    }

    /// The native number of the value.
    pub fn bits(self) -> (r: u32)
        ensures
            r == self.spec_bits(),
    {
        match self {
            StencilOp::Keep => 1,
            StencilOp::Zero => 2,
            StencilOp::Replace => 3,
            StencilOp::IncrSat => 4,
            StencilOp::DecrSat => 5,
            StencilOp::Invert => 6,
            StencilOp::Incr => 7,
            StencilOp::Decr => 8,
        }
    }

    /// The value with the native number `bits`, if there is one.
    pub fn from_bits(bits: u32) -> (r: Option<StencilOp>)
        ensures
            match r {
                Some(v) => v.spec_bits() == bits,
                None => forall|v: StencilOp| v.spec_bits() != bits,
            },
    {
        if bits == 1 {
            Some(StencilOp::Keep)
        } else if bits == 2 {
            Some(StencilOp::Zero)
        } else if bits == 3 {
            Some(StencilOp::Replace)
        } else if bits == 4 {
            Some(StencilOp::IncrSat)
        } else if bits == 5 {
            Some(StencilOp::DecrSat)
        } else if bits == 6 {
            Some(StencilOp::Invert)
        } else if bits == 7 {
            Some(StencilOp::Incr)
        } else if bits == 8 {
            Some(StencilOp::Decr)
        } else {
            None
        }
    }
}

/// What is done to the stencil value after the stencil test.
#[derive(Copy, Clone, Debug, PartialEq, Eq, Structural)]
pub struct StencilOpDesc {
    /// Where the stencil test fails.
    pub fail: StencilOp,
    /// Where the stencil test passes and the depth test fails.
    pub depth_fail: StencilOp,
    /// Where both tests pass.
    pub pass: StencilOp,
    /// The stencil test.
    pub func: ComparisonFunc,
}

impl StencilOpDesc {
    /// The operations that are taken where none are given: the test always
    /// passes and the value is always kept.
    pub open spec fn spec_default() -> StencilOpDesc {
        StencilOpDesc {
            fail: StencilOp::Keep,
            depth_fail: StencilOp::Keep,
            pass: StencilOp::Keep,
            func: ComparisonFunc::Always,
        }
    }
}

impl Default for StencilOpDesc {
    /// The test always passes and the value is always kept.
    fn default() -> (r: StencilOpDesc)
        ensures
            r == StencilOpDesc::spec_default(),
    {
        StencilOpDesc {
            fail: StencilOp::Keep,
            depth_fail: StencilOp::Keep,
            pass: StencilOp::Keep,
            func: ComparisonFunc::Always,
        }
    }
}

/// The depth stencil state.
#[derive(Copy, Clone, Debug, PartialEq, Eq, Structural)]
pub struct DepthStencilDesc {
    pub depth: Bool,
    pub depth_write_mask: DepthWriteMask,
    pub depth_func: ComparisonFunc,
    pub stencil: Bool,
    pub stencil_read_mask: u8,
    pub stencil_write_mask: u8,
    pub front_op: StencilOpDesc,
    pub back_op: StencilOpDesc,
}

impl DepthStencilDesc {
    /// The state that is taken where none is given: depth is tested and
    /// written, nearer passes; stencil is off.
    pub open spec fn spec_default() -> DepthStencilDesc {
        DepthStencilDesc {
            depth: Bool::of(true),
            depth_write_mask: DepthWriteMask::All,
            depth_func: ComparisonFunc::Less,
            stencil: Bool::of(false),
            stencil_read_mask: 0xff,
            stencil_write_mask: 0xff,
            front_op: StencilOpDesc::spec_default(),
            back_op: StencilOpDesc::spec_default(),
        }
    }
}

impl Default for DepthStencilDesc {
    /// Depth is tested and written, nearer passes; stencil is off.
    fn default() -> (r: DepthStencilDesc)
        ensures
            r == DepthStencilDesc::spec_default(),
    {
        DepthStencilDesc {
            depth: Bool::new(true),
            depth_write_mask: DepthWriteMask::All,
            depth_func: ComparisonFunc::Less,
            stencil: Bool::new(false),
            stencil_read_mask: 0xff,
            stencil_write_mask: 0xff,
            front_op: Default::default(),
            back_op: Default::default(),
        }
    }
}

} // verus!
