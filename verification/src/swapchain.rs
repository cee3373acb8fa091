//! Descriptions of swap chains and of what they present.

use vstd::prelude::*;
use crate::format::{Bool, DxgiFormat, DXGI_FORMAT_UNKNOWN};
use crate::resource::usage::Usage;

verus! {

/// A multi-sampling scheme.
#[derive(Clone, Copy, Debug, PartialEq, Eq, Structural)]
pub struct SampleDesc {
    /// The number of multisamples per pixel.
    pub count: u32,
    /// The image quality level.
    pub quality: u32,
}

impl Default for SampleDesc {
    /// One sample per pixel, at the lowest quality level.
    fn default() -> (r: SampleDesc)
        ensures
            r == (SampleDesc { count: 1, quality: 0 }),
    {
        SampleDesc { count: 1, quality: 0 }
    }
}

/// How a back buffer is scaled when it is presented.
#[derive(Clone, Copy, Debug, PartialEq, Eq, Hash, Structural)]
pub enum Scaling {
    /// It is stretched to fill the target.
    Stretch,
    /// It is not scaled; its top edge lies on that of the target.
    NoScaling,
    /// It is stretched to fit the target, with its aspect ratio kept.
    AspectRatioStretch,
}

impl Scaling {
    /// The native number of the value.
    pub open spec fn spec_bits(self) -> u32 {
        match self {
            Scaling::Stretch => 0,
            Scaling::NoScaling => 1,
            Scaling::AspectRatioStretch => 2,
        }
    }

    /// The native number of the value.
    pub fn bits(self) -> (r: u32)
        ensures
            r == self.spec_bits(),
    {
        match self {
            Scaling::Stretch => 0,
            Scaling::NoScaling => 1,
            Scaling::AspectRatioStretch => 2,
        }
    }

    /// The value with the native number `bits`, if there is one.
    pub fn from_bits(bits: u32) -> (r: Option<Scaling>)
        ensures
            match r {
                Some(v) => v.spec_bits() == bits,
                None => forall|v: Scaling| v.spec_bits() != bits,
            },
    {
        if bits == 0 {
            Some(Scaling::Stretch)
        } else if bits == 1 {
            Some(Scaling::NoScaling)
        } else if bits == 2 {
            Some(Scaling::AspectRatioStretch)
        } else {
            None
        }
    }
}

impl Default for Scaling {
    /// It is stretched to fill the target.
    fn default() -> (r: Scaling)
        ensures
            r == Scaling::Stretch,
    {
        Scaling::Stretch
    }
}

/// How a back buffer is presented and what becomes of it afterwards.
#[derive(Clone, Copy, Debug, PartialEq, Eq, Hash, Structural)]
pub enum SwapEffect {
    /// It is copied; what it holds is dropped.
    Discard,
    /// It is copied; what it holds stays.
    Sequential,
    /// It is flipped; what it holds stays.
    FlipSequential,
    /// It is flipped; what it holds is dropped.
    FlipDiscard,
}

impl SwapEffect {
    /// The native number of the value.
    pub open spec fn spec_bits(self) -> u32 {
        match self {
            SwapEffect::Discard => 0,
            SwapEffect::Sequential => 1,
            SwapEffect::FlipSequential => 3,
            SwapEffect::FlipDiscard => 4,
        }
    }

    /// The native number of the value.
    pub fn bits(self) -> (r: u32)
        ensures
            r == self.spec_bits(),
    {
        match self {
            SwapEffect::Discard => 0,
            SwapEffect::Sequential => 1,
            SwapEffect::FlipSequential => 3,
            SwapEffect::FlipDiscard => 4,
        }
    }

    /// The value with the native number `bits`, if there is one.
    pub fn from_bits(bits: u32) -> (r: Option<SwapEffect>)
        ensures
            match r {
                Some(v) => v.spec_bits() == bits,
                None => forall|v: SwapEffect| v.spec_bits() != bits,
            },
    {
        if bits == 0 {
            Some(SwapEffect::Discard)
        } else if bits == 1 {
            Some(SwapEffect::Sequential)
        } else if bits == 3 {
            Some(SwapEffect::FlipSequential)
        } else if bits == 4 {
            Some(SwapEffect::FlipDiscard)
        } else {
            None
        }
    }
}

impl Default for SwapEffect {
    /// It is copied and dropped.
    fn default() -> (r: SwapEffect)
        ensures
            r == SwapEffect::Discard,
    {
        SwapEffect::Discard
    }
}

/// How the alpha channel of a surface is read.
#[derive(Clone, Copy, Debug, PartialEq, Eq, Hash, Structural)]
pub enum AlphaMode {
    /// Not stated.
    Unspecified,
    /// The colors are multiplied by alpha already.
    Premultiplied,
    /// The colors are not multiplied by alpha.
    Straight,
    /// Alpha is ignored.
    Ignore,
}

impl AlphaMode {
    /// The native number of the value.
    pub open spec fn spec_bits(self) -> u32 {
        match self {
            AlphaMode::Unspecified => 0,
            AlphaMode::Premultiplied => 1,
            AlphaMode::Straight => 2,
            AlphaMode::Ignore => 3,
        }
    }

    /// The native number of the value.
    pub fn bits(self) -> (r: u32)
        ensures
            r == self.spec_bits(),
    {
        match self {
            AlphaMode::Unspecified => 0,
            AlphaMode::Premultiplied => 1,
            AlphaMode::Straight => 2,
            AlphaMode::Ignore => 3,
        }
    }

    /// The value with the native number `bits`, if there is one.
    pub fn from_bits(bits: u32) -> (r: Option<AlphaMode>)
        ensures
            match r {
                Some(v) => v.spec_bits() == bits,
                None => forall|v: AlphaMode| v.spec_bits() != bits,
            },
    {
        if bits == 0 {
            Some(AlphaMode::Unspecified)
        } else if bits == 1 {
            Some(AlphaMode::Premultiplied)
        } else if bits == 2 {
            Some(AlphaMode::Straight)
        } else if bits == 3 {
            Some(AlphaMode::Ignore)
        } else {
            None
        }
    }
}

impl Default for AlphaMode {
    /// Not stated.
    fn default() -> (r: AlphaMode)
        ensures
            r == AlphaMode::Unspecified,
    {
        AlphaMode::Unspecified
    }
}

/// Options of a swap chain.
#[derive(Clone, Copy, Debug, PartialEq, Eq, Hash, Structural)]
pub struct SwapChainFlags {
    pub bits: u32,
}

impl SwapChainFlags {
    /// No option.
    pub const NONE: u32 = 0;

    /// Full screen output is not rotated by itself.
    pub const NONPREROTATED: u32 = 1;

    /// Resizing the target may switch the display mode.
    pub const ALLOW_MODE_SWITCH: u32 = 2;

    /// A device context may be had of the first back buffer.
    pub const GDI_COMPATIBLE: u32 = 4;

    /// The content is protected.
    pub const RESTRICTED_CONTENT: u32 = 8;

    /// Shared resources are restricted to the driver.
    pub const RESTRICT_SHARED_RESOURCE_DRIVER: u32 = 16;

    /// The content is shown on local displays only.
    pub const DISPLAY_ONLY: u32 = 32;

    /// Rendering waits while a frame is being presented.
    pub const FRAME_LATENCY_WAITABLE_OBJECT: u32 = 64;

    /// The swap chain lies in the foreground layer.
    pub const FOREGROUND_LAYER: u32 = 128;

    /// The swap chain shows full screen video.
    pub const FULLSCREEN_VIDEO: u32 = 256;

    /// The swap chain shows YUV video.
    pub const YUV_VIDEO: u32 = 512;

    /// The swap chain is protected by the hardware.
    pub const HW_PROTECTED: u32 = 1024;

    /// Frames may tear on displays with a variable refresh rate.
    pub const ALLOW_TEARING: u32 = 2048;

    /// Every bit that names a flag.
    pub const ALL: u32 = 0xfff;

    /// Whether every flag of `other` is among the flags of `self`.
    pub open spec fn spec_contains(self, other: SwapChainFlags) -> bool {
        self.bits & other.bits == other.bits
    }

    /// Whether only bits that name a flag are set.
    pub open spec fn is_known(self) -> bool {
        self.bits & !SwapChainFlags::ALL == 0
    }

    /// No flag.
    pub fn empty() -> (r: SwapChainFlags)
        ensures
            r.bits == 0,
    {
        SwapChainFlags { bits: 0 }
    }

    /// The bits.
    pub fn bits(&self) -> (r: u32)
        ensures
            r == self.bits,
    {
        self.bits
    }

    /// The flags that `bits` names, or nothing where a bit names no flag.
    pub fn from_bits(bits: u32) -> (r: Option<SwapChainFlags>)
        ensures
            r == (if (SwapChainFlags { bits }).is_known() {
                Some(SwapChainFlags { bits })
            } else {
                None
            }),
    {
        if bits & !SwapChainFlags::ALL == 0 {
            Some(SwapChainFlags { bits })
        } else {
            None
        }
    }

    /// The flags that `bits` names, without the bits that name none.
    pub fn from_bits_truncate(bits: u32) -> (r: SwapChainFlags)
        ensures
            r.bits == bits & SwapChainFlags::ALL,
    {
        SwapChainFlags { bits: bits & SwapChainFlags::ALL }
    }

    /// Whether no flag is set.
    pub fn is_empty(&self) -> (r: bool)
        ensures
            r == (self.bits == 0),
    {
        self.bits == 0
    }

    /// Whether every flag of `other` is among the flags of `self`.
    pub fn contains(&self, other: SwapChainFlags) -> (r: bool)
        ensures
            r == self.spec_contains(other),
    {
        self.bits & other.bits == other.bits
    }

    /// The flags of either.
    pub fn union(self, other: SwapChainFlags) -> (r: SwapChainFlags)
        ensures
            r.bits == self.bits | other.bits,
    {
        SwapChainFlags { bits: self.bits | other.bits }
    }
}

impl Default for SwapChainFlags {
    /// No option.
    fn default() -> (r: SwapChainFlags)
        ensures
            r.bits == 0,
    {
        SwapChainFlags { bits: 0 }
    }
}

/// Options of a presentation.
#[derive(Clone, Copy, Debug, PartialEq, Eq, Hash, Structural)]
pub struct PresentFlags {
    pub bits: u32,
}

impl PresentFlags {
    /// A frame of each buffer is presented in turn.
    pub const NONE: u32 = 0;

    /// Nothing is presented; the call only tests.
    pub const TEST: u32 = 0x1;

    /// The frame of the current buffer is presented out of sequence.
    pub const DO_NOT_SEQUENCE: u32 = 0x2;

    /// Queued frames are dropped.
    pub const RESTART: u32 = 0x4;

    /// The call fails where it would block.
    pub const DO_NOT_WAIT: u32 = 0x8;

    /// The content is shown on one output only.
    pub const RESTRICT_TO_OUTPUT: u32 = 0x10;

    /// The right eye is preferred.
    pub const STEREO_PREFER_RIGHT: u32 = 0x20;

    /// The left buffer is used as a mono buffer.
    pub const STEREO_TEMPORARY_MONO: u32 = 0x40;

    /// The frame may tear.
    pub const ALLOW_TEARING: u32 = 0x200;

    /// Every bit that names a flag.
    pub const ALL: u32 = 0x27f;

    /// Whether every flag of `other` is among the flags of `self`.
    pub open spec fn spec_contains(self, other: PresentFlags) -> bool {
        self.bits & other.bits == other.bits
    }

    /// Whether only bits that name a flag are set.
    pub open spec fn is_known(self) -> bool {
        self.bits & !PresentFlags::ALL == 0
    }

    /// No flag.
    pub fn empty() -> (r: PresentFlags)
        ensures
            r.bits == 0,
    {
        PresentFlags { bits: 0 }
    }

    /// The bits.
    pub fn bits(&self) -> (r: u32)
        ensures
            r == self.bits,
    {
        self.bits
    }

    /// The flags that `bits` names, or nothing where a bit names no flag.
    pub fn from_bits(bits: u32) -> (r: Option<PresentFlags>)
        ensures
            r == (if (PresentFlags { bits }).is_known() {
                Some(PresentFlags { bits })
            } else {
                None
            }),
    {
        if bits & !PresentFlags::ALL == 0 {
            Some(PresentFlags { bits })
        } else {
            None
        }
    }

    /// The flags that `bits` names, without the bits that name none.
    pub fn from_bits_truncate(bits: u32) -> (r: PresentFlags)
        ensures
            r.bits == bits & PresentFlags::ALL,
    {
        PresentFlags { bits: bits & PresentFlags::ALL }
    }

    /// Whether no flag is set.
    pub fn is_empty(&self) -> (r: bool)
        ensures
            r == (self.bits == 0),
    {
        self.bits == 0
    }

    /// Whether every flag of `other` is among the flags of `self`.
    pub fn contains(&self, other: PresentFlags) -> (r: bool)
        ensures
            r == self.spec_contains(other),
    {
        self.bits & other.bits == other.bits
    }

    /// The flags of either.
    pub fn union(self, other: PresentFlags) -> (r: PresentFlags)
        ensures
            r.bits == self.bits | other.bits,
    {
        PresentFlags { bits: self.bits | other.bits }
    }
}

impl Default for PresentFlags {
    /// No option.
    fn default() -> (r: PresentFlags)
        ensures
            r.bits == 0,
    {
        PresentFlags { bits: 0 }
    }
}

/// The description of a swap chain.
#[derive(Clone, Copy, Debug, PartialEq, Eq, Structural)]
pub struct SwapChainDesc {
    /// The width of the resolution; zero for that of the target window.
    pub width: u32,
    /// The height of the resolution; zero for that of the target window.
    pub height: u32,
    /// The display format.
    pub format: DxgiFormat,
    /// Whether the display or the back buffer is stereo.
    pub stereo: Bool,
    /// The multi-sampling scheme.
    pub sample_desc: SampleDesc,
    /// How the back buffers are used.
    pub buffer_usage: Usage,
    /// The number of buffers.
    pub buffer_count: u32,
    /// How a back buffer is scaled when it is presented.
    pub scaling: Scaling,
    /// How a back buffer is presented.
    pub swap_effect: SwapEffect,
    /// How alpha is read.
    pub alpha_mode: AlphaMode,
    /// The options.
    pub flags: SwapChainFlags,
}

impl SwapChainDesc {
    /// The description of a swap chain of two buffers of the given format
    /// that are rendered to, at the size of the target window.
    pub fn new(format: DxgiFormat) -> (r: SwapChainDesc)
        ensures
            r == (SwapChainDesc {
                width: 0,
                height: 0,
                format,
                stereo: Bool::of(false),
                sample_desc: SampleDesc { count: 1, quality: 0 },
                buffer_usage: Usage { bits: Usage::RENDER_TARGET_OUTPUT },
                buffer_count: 2,
                scaling: Scaling::Stretch,
                swap_effect: SwapEffect::Discard,
                alpha_mode: AlphaMode::Unspecified,
                flags: SwapChainFlags { bits: SwapChainFlags::NONE },
            }),
    {
        SwapChainDesc {
            width: 0,
            height: 0,
            format,
            stereo: Bool::new(false),
            sample_desc: SampleDesc { count: 1, quality: 0 },
            buffer_usage: Usage { bits: Usage::RENDER_TARGET_OUTPUT },
            buffer_count: 2,
            scaling: Scaling::Stretch,
            swap_effect: SwapEffect::Discard,
            alpha_mode: AlphaMode::Unspecified,
            flags: SwapChainFlags { bits: SwapChainFlags::NONE },
        }
    }
}

/// What the buffers of a swap chain are resized to.
#[derive(Clone, Copy, Debug, PartialEq, Eq, Structural)]
pub struct SwapChainResizeDesc {
    /// The new width; zero for that of the target window.
    pub width: u32,
    /// The new height; zero for that of the target window.
    pub height: u32,
    /// The new format; the unknown format keeps the old one.
    pub format: DxgiFormat,
    /// The new number of buffers; zero keeps the old one.
    pub buffer_count: u32,
    /// The new options.
    pub flags: SwapChainFlags,
}

impl SwapChainResizeDesc {
    /// A resize that keeps everything but the options.
    pub fn new(flags: SwapChainFlags) -> (r: SwapChainResizeDesc)
        ensures
            r == (SwapChainResizeDesc {
                width: 0,
                height: 0,
                format: DXGI_FORMAT_UNKNOWN,
                buffer_count: 0,
                flags,
            }),
    {
        SwapChainResizeDesc { width: 0, height: 0, format: DXGI_FORMAT_UNKNOWN, buffer_count: 0, flags }
    }
}

/// The greatest number of vertical blanks that a presentation may wait for.
pub const MAX_SYNC_INTERVAL: u32 = 4;

/// Whether a presentation may wait for `sync_interval` vertical blanks.
pub fn is_sync_interval(sync_interval: u32) -> (r: bool)
    ensures
        r == (sync_interval <= MAX_SYNC_INTERVAL),
{
    sync_interval <= MAX_SYNC_INTERVAL
}

} // verus!
