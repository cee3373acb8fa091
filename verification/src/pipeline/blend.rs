//! Blend states.

use vstd::prelude::*;
use crate::format::Bool;

verus! {

/// A blend factor.
#[derive(Clone, Copy, Debug, PartialEq, Eq, Hash, Structural)]
pub enum Blend {
    /// Zero.
    Zero,
    /// One.
    One,
    /// The color of the source.
    SrcColor,
    /// One minus the color of the source.
    InvSrcColor,
    /// The alpha of the source.
    SrcAlpha,
    /// One minus the alpha of the source.
    InvSrcAlpha,
    /// The alpha of the destination.
    DestAlpha,
    /// One minus the alpha of the destination.
    InvDestAlpha,
    /// The color of the destination.
    DestColor,
    /// One minus the color of the destination.
    InvDestColor,
    /// The alpha of the source, saturated.
    SrcAlphaSat,
    /// The blend factor of the command list.
    Factor,
    /// One minus the blend factor of the command list.
    InvFactor,
    /// The color of the second source.
    Src1Color,
    /// One minus the color of the second source.
    InvSrc1Color,
    /// The alpha of the second source.
    Src1Alpha,
    /// One minus the alpha of the second source.
    InvSrc1Alpha,
}

impl Blend {
    /// The native number of the value.
    pub open spec fn spec_bits(self) -> u32 {
        match self {
            Blend::Zero => 1,
            Blend::One => 2,
            Blend::SrcColor => 3,
            Blend::InvSrcColor => 4,
            Blend::SrcAlpha => 5,
            Blend::InvSrcAlpha => 6,
            Blend::DestAlpha => 7,
            Blend::InvDestAlpha => 8,
            Blend::DestColor => 9,
            Blend::InvDestColor => 10,
            Blend::SrcAlphaSat => 11,
            Blend::Factor => 14,
            Blend::InvFactor => 15,
            Blend::Src1Color => 16,
            Blend::InvSrc1Color => 17,
            Blend::Src1Alpha => 18,
            Blend::InvSrc1Alpha => 19,
        }
    }

    /// The native number of the value.
    pub fn bits(self) -> (r: u32)
        ensures
            r == self.spec_bits(),
    {
        match self {
            Blend::Zero => 1,
            Blend::One => 2,
            Blend::SrcColor => 3,
            Blend::InvSrcColor => 4,
            Blend::SrcAlpha => 5,
            Blend::InvSrcAlpha => 6,
            Blend::DestAlpha => 7,
            Blend::InvDestAlpha => 8,
            Blend::DestColor => 9,
            Blend::InvDestColor => 10,
            Blend::SrcAlphaSat => 11,
            Blend::Factor => 14,
            Blend::InvFactor => 15,
            Blend::Src1Color => 16,
            Blend::InvSrc1Color => 17,
            Blend::Src1Alpha => 18,
            Blend::InvSrc1Alpha => 19,
        }
    }

    /// The value with the native number `bits`, if there is one.
    pub fn from_bits(bits: u32) -> (r: Option<Blend>)
        ensures
            match r {
                Some(v) => v.spec_bits() == bits,
                None => forall|v: Blend| v.spec_bits() != bits,
            },
    {
        if bits == 1 {
            Some(Blend::Zero)
        } else if bits == 2 {
            Some(Blend::One)
        } else if bits == 3 {
            Some(Blend::SrcColor)
        } else if bits == 4 {
            Some(Blend::InvSrcColor)
        } else if bits == 5 {
            Some(Blend::SrcAlpha)
        } else if bits == 6 {
            Some(Blend::InvSrcAlpha)
        } else if bits == 7 {
            Some(Blend::DestAlpha)
        } else if bits == 8 {
            Some(Blend::InvDestAlpha)
        } else if bits == 9 {
            Some(Blend::DestColor)
        } else if bits == 10 {
            Some(Blend::InvDestColor)
        } else if bits == 11 {
            Some(Blend::SrcAlphaSat)
        } else if bits == 14 {
            Some(Blend::Factor)
        } else if bits == 15 {
            Some(Blend::InvFactor)
        } else if bits == 16 {
            Some(Blend::Src1Color)
        } else if bits == 17 {
            Some(Blend::InvSrc1Color)
        } else if bits == 18 {
            Some(Blend::Src1Alpha)
        } else if bits == 19 {
            Some(Blend::InvSrc1Alpha)
        } else {
            None
        }
    }
}

/// How source and destination are combined.
#[derive(Clone, Copy, Debug, PartialEq, Eq, Hash, Structural)]
pub enum BlendOp {
    /// Source plus destination.
    Add,
    /// Destination minus source.
    Subtract,
    /// Source minus destination.
    RevSubtract,
    /// The lesser of both.
    Min,
    /// The greater of both.
    Max,
}

impl BlendOp {
    /// The native number of the value.
    pub open spec fn spec_bits(self) -> u32 {
        match self {
            BlendOp::Add => 1,
            BlendOp::Subtract => 2,
            BlendOp::RevSubtract => 3,
            BlendOp::Min => 4,
            BlendOp::Max => 5,
        }
    }

    /// The native number of the value.
    pub fn bits(self) -> (r: u32)
        ensures
            r == self.spec_bits(),
    {
        match self {
            BlendOp::Add => 1,
            BlendOp::Subtract => 2,
            BlendOp::RevSubtract => 3,
            BlendOp::Min => 4,
            BlendOp::Max => 5,
        }
    }

    /// The value with the native number `bits`, if there is one.
    pub fn from_bits(bits: u32) -> (r: Option<BlendOp>)
        ensures
            match r {
                Some(v) => v.spec_bits() == bits,
                None => forall|v: BlendOp| v.spec_bits() != bits,
            },
    {
        if bits == 1 {
            Some(BlendOp::Add)
        } else if bits == 2 {
            Some(BlendOp::Subtract)
        } else if bits == 3 {
            Some(BlendOp::RevSubtract)
        } else if bits == 4 {
            Some(BlendOp::Min)
        } else if bits == 5 {
            Some(BlendOp::Max)
        } else {
            None
        }
    }
}

/// A bitwise operation on source and destination.
#[derive(Clone, Copy, Debug, PartialEq, Eq, Hash, Structural)]
pub enum LogicOp {
    /// All zeros.
    Clear,
    /// All ones.
    SetAll,
    /// The source.
    Copy,
    /// The inverted source.
    CopyInverted,
    /// The destination.
    Noop,
    /// The inverted destination.
    Invert,
    /// Source and destination.
    And,
    /// Not both.
    Nand,
    /// Source or destination.
    Or,
    /// Neither.
    Nor,
    /// Either but not both.
    Xor,
    /// Both or neither.
    Equiv,
    /// Source and not destination.
    AndReverse,
    /// Not source and destination.
    AndInverted,
    /// Source or not destination.
    OrReverse,
    /// Not source or destination.
    OrInverted,
}

impl LogicOp {
    /// The native number of the value.
    pub open spec fn spec_bits(self) -> u32 {
        match self {
            LogicOp::Clear => 0,
            LogicOp::SetAll => 1,
            LogicOp::Copy => 2,
            LogicOp::CopyInverted => 3,
            LogicOp::Noop => 4,
            LogicOp::Invert => 5,
            LogicOp::And => 6,
            LogicOp::Nand => 7,
            LogicOp::Or => 8,
            LogicOp::Nor => 9,
            LogicOp::Xor => 10,
            LogicOp::Equiv => 11,
            LogicOp::AndReverse => 12,
            LogicOp::AndInverted => 13,
            LogicOp::OrReverse => 14,
            LogicOp::OrInverted => 15,
        }
    }

    /// The native number of the value.
    pub fn bits(self) -> (r: u32)
        ensures
            r == self.spec_bits(),
    {
        match self {
            LogicOp::Clear => 0,
            LogicOp::SetAll => 1,
            LogicOp::Copy => 2,
            LogicOp::CopyInverted => 3,
            LogicOp::Noop => 4,
            LogicOp::Invert => 5,
            LogicOp::And => 6,
            LogicOp::Nand => 7,
            LogicOp::Or => 8,
            LogicOp::Nor => 9,
            LogicOp::Xor => 10,
            LogicOp::Equiv => 11,
            LogicOp::AndReverse => 12,
            LogicOp::AndInverted => 13,
            LogicOp::OrReverse => 14,
            LogicOp::OrInverted => 15,
        }
    }

    /// The value with the native number `bits`, if there is one.
    pub fn from_bits(bits: u32) -> (r: Option<LogicOp>)
        ensures
            match r {
                Some(v) => v.spec_bits() == bits,
                None => forall|v: LogicOp| v.spec_bits() != bits,
            },
    {
        if bits == 0 {
            Some(LogicOp::Clear)
        } else if bits == 1 {
            Some(LogicOp::SetAll)
        } else if bits == 2 {
            Some(LogicOp::Copy)
        } else if bits == 3 {
            Some(LogicOp::CopyInverted)
        } else if bits == 4 {
            Some(LogicOp::Noop)
        } else if bits == 5 {
            Some(LogicOp::Invert)
        } else if bits == 6 {
            Some(LogicOp::And)
        } else if bits == 7 {
            Some(LogicOp::Nand)
        } else if bits == 8 {
            Some(LogicOp::Or)
        } else if bits == 9 {
            Some(LogicOp::Nor)
        } else if bits == 10 {
            Some(LogicOp::Xor)
        } else if bits == 11 {
            Some(LogicOp::Equiv)
        } else if bits == 12 {
            Some(LogicOp::AndReverse)
        } else if bits == 13 {
            Some(LogicOp::AndInverted)
        } else if bits == 14 {
            Some(LogicOp::OrReverse)
        } else if bits == 15 {
            Some(LogicOp::OrInverted)
        } else {
            None
        }
    }
}

/// The color channels that a blend writes.
#[derive(Clone, Copy, Debug, PartialEq, Eq, Hash, Structural)]
pub struct ColorWriteMask {
    pub bits: u8,
}

impl ColorWriteMask {
    /// Red.
    pub const ENABLE_RED: u8 = 1;

    /// Green.
    pub const ENABLE_GREEN: u8 = 2;

    /// Blue.
    pub const ENABLE_BLUE: u8 = 4;

    /// Alpha.
    pub const ENABLE_ALPHA: u8 = 8;

    /// All four.
    pub const ENABLE_ALL: u8 = 0xf;

    /// Every bit that names a flag.
    pub const ALL: u8 = 0xf;

    /// Whether every flag of `other` is among the flags of `self`.
    pub open spec fn spec_contains(self, other: ColorWriteMask) -> bool {
        self.bits & other.bits == other.bits
    }

    /// Whether only bits that name a flag are set.
    pub open spec fn is_known(self) -> bool {
        self.bits & !ColorWriteMask::ALL == 0
    }

    /// No flag.
    pub fn empty() -> (r: ColorWriteMask)
        ensures
            r.bits == 0,
    {
        ColorWriteMask { bits: 0 }
    }

    /// The bits.
    pub fn bits(&self) -> (r: u8)
        ensures
            r == self.bits,
    {
        self.bits
    }

    /// The flags that `bits` names, or nothing where a bit names no flag.
    pub fn from_bits(bits: u8) -> (r: Option<ColorWriteMask>)
        ensures
            r == (if (ColorWriteMask { bits }).is_known() {
                Some(ColorWriteMask { bits })
            } else {
                None
            }),
    {
        if bits & !ColorWriteMask::ALL == 0 {
            Some(ColorWriteMask { bits })
        } else {
            None
        }
    }

    /// The flags that `bits` names, without the bits that name none.
    pub fn from_bits_truncate(bits: u8) -> (r: ColorWriteMask)
        ensures
            r.bits == bits & ColorWriteMask::ALL,
    {
        ColorWriteMask { bits: bits & ColorWriteMask::ALL }
    }

    /// Whether no flag is set.
    pub fn is_empty(&self) -> (r: bool)
        ensures
            r == (self.bits == 0),
    {
        self.bits == 0
    }

    /// Whether every flag of `other` is among the flags of `self`.
    pub fn contains(&self, other: ColorWriteMask) -> (r: bool)
        ensures
            r == self.spec_contains(other),
    {
        self.bits & other.bits == other.bits
    }

    /// The flags of either.
    pub fn union(self, other: ColorWriteMask) -> (r: ColorWriteMask)
        ensures
            r.bits == self.bits | other.bits,
    {
        ColorWriteMask { bits: self.bits | other.bits }
    }
}

/// The blend state of one render target.
#[derive(Copy, Clone, Debug, PartialEq, Eq, Structural)]
pub struct RenderTargetBlendDesc {
    pub blend_enabled: Bool,
    pub logic_op_enabled: Bool,
    pub src_blend: Blend,
    pub dst_blend: Blend,
    pub blend_op: BlendOp,
    pub src_alpha: Blend,
    pub dst_alpha: Blend,
    pub blend_op_alpha: BlendOp,
    pub logic_op: LogicOp,
    pub write_mask: ColorWriteMask,
}

impl RenderTargetBlendDesc {
    /// The state in which nothing is blended: the source replaces the
    /// destination in every channel.
    pub open spec fn plain() -> RenderTargetBlendDesc {
        RenderTargetBlendDesc {
            blend_enabled: Bool::of(false),
            logic_op_enabled: Bool::of(false),
            src_blend: Blend::One,
            dst_blend: Blend::Zero,
            blend_op: BlendOp::Add,
            src_alpha: Blend::One,
            dst_alpha: Blend::Zero,
            blend_op_alpha: BlendOp::Add,
            logic_op: LogicOp::Noop,
            write_mask: ColorWriteMask { bits: ColorWriteMask::ENABLE_ALL },
        }
    }

    /// Whether this is the state in which nothing is blended.
    pub open spec fn is_plain(&self) -> bool {
        *self == RenderTargetBlendDesc::plain()
    }

    /// The state in which nothing is blended.
    pub fn new() -> (r: RenderTargetBlendDesc)
        ensures
            r.is_plain(),
    {
        RenderTargetBlendDesc {
            blend_enabled: Bool::new(false),
            logic_op_enabled: Bool::new(false),
            src_blend: Blend::One,
            dst_blend: Blend::Zero,
            blend_op: BlendOp::Add,
            src_alpha: Blend::One,
            dst_alpha: Blend::Zero,
            blend_op_alpha: BlendOp::Add,
            logic_op: LogicOp::Noop,
            write_mask: ColorWriteMask { bits: ColorWriteMask::ENABLE_ALL },
        }
    }

    /// Turns blending on and sets how colors are blended. The rest stays.
    pub fn set_blend(&mut self, src: Blend, dst: Blend, op: BlendOp)
        ensures
            *final(self) == (RenderTargetBlendDesc {
                blend_enabled: Bool::of(true),
                src_blend: src,
                dst_blend: dst,
                blend_op: op,
                ..*old(self)
            }),
    {
        self.blend_enabled = Bool::new(true);
        self.src_blend = src;
        self.dst_blend = dst;
        self.blend_op = op;
    }

    /// Turns blending on and sets how alpha is blended. The rest stays.
    pub fn set_blend_alpha(&mut self, src: Blend, dst: Blend, op: BlendOp)
        ensures
            *final(self) == (RenderTargetBlendDesc {
                blend_enabled: Bool::of(true),
                src_alpha: src,
                dst_alpha: dst,
                blend_op_alpha: op,
                ..*old(self)
            }),
    {
        self.blend_enabled = Bool::new(true);
        self.src_alpha = src;
        self.dst_alpha = dst;
        self.blend_op_alpha = op;
    }
}

impl Default for RenderTargetBlendDesc {
    /// The state in which nothing is blended.
    fn default() -> (r: RenderTargetBlendDesc)
        ensures
            r.is_plain(),
    {
        RenderTargetBlendDesc::new()
    }
}

/// The blend state of a pipeline.
#[derive(Copy, Clone, Debug, PartialEq, Eq)]
pub struct BlendDesc {
    /// Whether alpha to coverage is used for multisampling.
    pub alpha_to_coverage: Bool,
    /// Whether each render target is blended in its own way.
    pub independent_blend: Bool,
    /// The blend state of each render target.
    pub render_targets: [RenderTargetBlendDesc; 8],
}

impl BlendDesc {
    /// Whether this is the state in which nothing is blended on any render
    /// target, without alpha to coverage.
    pub open spec fn is_plain(&self) -> bool {
        &&& self.alpha_to_coverage == Bool::of(false)
        &&& self.independent_blend == Bool::of(false)
        &&& forall|i: int| 0 <= i < 8 ==> #[trigger] self.render_targets@[i] == RenderTargetBlendDesc::plain()
    }
}

impl Default for BlendDesc {
    /// Nothing is blended on any render target.
    fn default() -> (r: BlendDesc)
        ensures
            r.is_plain(),
    {
        let plain = RenderTargetBlendDesc::new();
        BlendDesc {
            alpha_to_coverage: Bool::new(false),
            independent_blend: Bool::new(false),
            render_targets: [plain, plain, plain, plain, plain, plain, plain, plain],
        }
    }
}

} // verus!
