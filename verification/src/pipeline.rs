//! Descriptions of graphics and compute pipelines.

use vstd::prelude::*;
use crate::command::list::common::PipelineStateObject;
use crate::comptr::ComPtr;
use crate::format::{DxgiFormat, DXGI_FORMAT_D24_UNORM_S8_UINT, DXGI_FORMAT_UNKNOWN};
use crate::pipeline::blend::BlendDesc;
use crate::pipeline::ds::DepthStencilDesc;
use crate::pipeline::ia::{InputElementDesc, InputLayoutBuilder, PrimitiveTopologyType, StripCutValue};
use crate::pipeline::rasterizer::RasterizerDesc;
use crate::pipeline::so::{DeclarationEntry, DescBuilder};
use crate::shader::{
    BlobObject,
    DsShaderBytecode,
    GsShaderBytecode,
    HsShaderBytecode,
    PsShaderBytecode,
    VsShaderBytecode,
};
use crate::swapchain::SampleDesc;

pub mod blend;
pub mod ds;
pub mod ia;
pub mod rasterizer;
pub mod rootsig;
pub mod sampler;
pub mod so;

verus! {

/// Options of a pipeline state.
#[derive(Clone, Copy, Debug, PartialEq, Eq, Hash, Structural)]
pub struct PipelineStateFlags {
    pub bits: u32,
}

impl PipelineStateFlags {
    /// No option.
    pub const NONE: u32 = 0;

    /// The pipeline state is made for a debugging tool.
    pub const TOOL_DEBUG: u32 = 0x1;

    /// Every bit that names a flag.
    pub const ALL: u32 = 0x1;

    /// Whether every flag of `other` is among the flags of `self`.
    pub open spec fn spec_contains(self, other: PipelineStateFlags) -> bool {
        self.bits & other.bits == other.bits
    }

    /// Whether only bits that name a flag are set.
    pub open spec fn is_known(self) -> bool {
        self.bits & !PipelineStateFlags::ALL == 0
    }

    /// No flag.
    pub fn empty() -> (r: PipelineStateFlags)
        ensures
            r.bits == 0,
    {
        PipelineStateFlags { bits: 0 }
    }

    /// The bits.
    pub fn bits(&self) -> (r: u32)
        ensures
            r == self.bits,
    {
        self.bits
    }

    /// The flags that `bits` names, or nothing where a bit names no flag.
    pub fn from_bits(bits: u32) -> (r: Option<PipelineStateFlags>)
        ensures
            r == (if (PipelineStateFlags { bits }).is_known() {
                Some(PipelineStateFlags { bits })
            } else {
                None
            }),
    {
        if bits & !PipelineStateFlags::ALL == 0 {
            Some(PipelineStateFlags { bits })
        } else {
            None
        }
    }

    /// The flags that `bits` names, without the bits that name none.
    pub fn from_bits_truncate(bits: u32) -> (r: PipelineStateFlags)
        ensures
            r.bits == bits & PipelineStateFlags::ALL,
    {
        PipelineStateFlags { bits: bits & PipelineStateFlags::ALL }
    }

    /// Whether no flag is set.
    pub fn is_empty(&self) -> (r: bool)
        ensures
            r == (self.bits == 0),
    {
        self.bits == 0
    }

    /// Whether every flag of `other` is among the flags of `self`.
    pub fn contains(&self, other: PipelineStateFlags) -> (r: bool)
        ensures
            r == self.spec_contains(other),
    {
        self.bits & other.bits == other.bits
    }

    /// The flags of either.
    pub fn union(self, other: PipelineStateFlags) -> (r: PipelineStateFlags)
        ensures
            r.bits == self.bits | other.bits,
    {
        PipelineStateFlags { bits: self.bits | other.bits }
    }
}

impl Default for PipelineStateFlags {
    /// No option.
    fn default() -> (r: PipelineStateFlags)
        ensures
            r.bits == 0,
    {
        PipelineStateFlags { bits: 0 }
    }
}

/// When a comparison of new data with stored data passes.
#[derive(Clone, Copy, Debug, PartialEq, Eq, Hash, Structural)]
pub enum ComparisonFunc {
    /// Never.
    Never,
    /// Where the new is less.
    Less,
    /// Where both are equal.
    Equal,
    /// Where the new is less or equal.
    LessEqual,
    /// Where the new is greater.
    Greater,
    /// Where they differ.
    NotEqual,
    /// Where the new is greater or equal.
    GreaterEqual,
    /// Always.
    Always,
}

impl ComparisonFunc {
    /// The native number of the value.
    pub open spec fn spec_bits(self) -> u32 {
        match self {
            ComparisonFunc::Never => 1,
            ComparisonFunc::Less => 2,
            ComparisonFunc::Equal => 3,
            ComparisonFunc::LessEqual => 4,
            ComparisonFunc::Greater => 5,
            ComparisonFunc::NotEqual => 6,
            ComparisonFunc::GreaterEqual => 7,
            ComparisonFunc::Always => 8,
        }
    }

    /// The native number of the value.
    pub fn bits(self) -> (r: u32)
        ensures
            r == self.spec_bits(),
    {
        match self {
            ComparisonFunc::Never => 1,
            ComparisonFunc::Less => 2,
            ComparisonFunc::Equal => 3,
            ComparisonFunc::LessEqual => 4,
            ComparisonFunc::Greater => 5,
            ComparisonFunc::NotEqual => 6,
            ComparisonFunc::GreaterEqual => 7,
            ComparisonFunc::Always => 8,
        }
    }

    /// The value with the native number `bits`, if there is one.
    pub fn from_bits(bits: u32) -> (r: Option<ComparisonFunc>)
        ensures
            match r {
                Some(v) => v.spec_bits() == bits,
                None => forall|v: ComparisonFunc| v.spec_bits() != bits,
            },
    {
        if bits == 1 {
            Some(ComparisonFunc::Never)
        } else if bits == 2 {
            Some(ComparisonFunc::Less)
        } else if bits == 3 {
            Some(ComparisonFunc::Equal)
        } else if bits == 4 {
            Some(ComparisonFunc::LessEqual)
        } else if bits == 5 {
            Some(ComparisonFunc::Greater)
        } else if bits == 6 {
            Some(ComparisonFunc::NotEqual)
        } else if bits == 7 {
            Some(ComparisonFunc::GreaterEqual)
        } else if bits == 8 {
            Some(ComparisonFunc::Always)
        } else {
            None
        }
    }
}

/// Marks a handle to a root signature.
#[derive(Debug, Clone, Copy, PartialEq, Eq)]
pub struct RootSignatureObject;

/// A root signature.
#[derive(Debug)]
pub struct RootSig {
    pub ptr: ComPtr<RootSignatureObject>,
}

/// A serialized description of a root signature.
#[derive(Debug)]
pub struct RootSigDescBlob {
    pub ptr: ComPtr<BlobObject>,
}

/// A pipeline state.
#[derive(Debug)]
pub struct PipelineState {
    pub ptr: ComPtr<PipelineStateObject>,
}

/// The cached blob of a pipeline state.
#[derive(Debug)]
pub struct PipelineStateCache {
    pub ptr: ComPtr<BlobObject>,
}

/// Builds the states of graphics pipelines.
#[derive(Debug)]
pub struct GraphicsPipelineStateBuilder<'a> {
    pub rootsig: &'a RootSig,
    pub vs: Option<VsShaderBytecode>,
    pub ps: Option<PsShaderBytecode>,
    pub ds: Option<DsShaderBytecode>,
    pub hs: Option<HsShaderBytecode>,
    pub gs: Option<GsShaderBytecode>,
    pub stream_output: DescBuilder,
    pub blend_state: BlendDesc,
    pub sample_mask: u32,
    pub rasterizer_state: RasterizerDesc,
    pub depth_stencil_state: DepthStencilDesc,
    pub input_layout: InputLayoutBuilder,
    pub strip_cut_value: StripCutValue,
    pub primitive_topology_type: PrimitiveTopologyType,
    pub num_render_targets: u32,
    pub rtv_formats: [DxgiFormat; 8],
    pub dsv_format: DxgiFormat,
    pub sample_desc: SampleDesc,
    pub node_mask: u32,
    pub cache: Option<PipelineStateCache>,
    pub flags: PipelineStateFlags,
}

impl<'a> GraphicsPipelineStateBuilder<'a> {
    /// A builder of pipelines that draw triangles to one render target of
    /// unknown format, with a depth buffer of 24 bits of depth and eight of
    /// stencil, without shaders, and with every state at its default.
    pub fn new(root_signature: &'a RootSig) -> (r: GraphicsPipelineStateBuilder<'a>)
        ensures
            r.rootsig == root_signature,
            r.vs is None && r.ps is None && r.ds is None && r.hs is None && r.gs is None,
            r.stream_output.entries@ == Seq::<DeclarationEntry>::empty(),
            r.stream_output.strides@ == Seq::<u32>::empty(),
            r.stream_output.rasterized_stream == 0,
            r.blend_state.is_plain(),
            r.sample_mask == 0,
            r.rasterizer_state == RasterizerDesc::spec_default(),
            r.depth_stencil_state == DepthStencilDesc::spec_default(),
            r.input_layout.elements@ == Seq::<InputElementDesc>::empty(),
            r.strip_cut_value == StripCutValue::Disabled,
            r.primitive_topology_type == PrimitiveTopologyType::Triangle,
            r.num_render_targets == 1,
            forall|i: int| 0 <= i < 8 ==> #[trigger] r.rtv_formats@[i] == DXGI_FORMAT_UNKNOWN,
            r.dsv_format == DXGI_FORMAT_D24_UNORM_S8_UINT,
            r.sample_desc == (SampleDesc { count: 1, quality: 0 }),
            r.node_mask == 0,
            r.cache is None,
            r.flags.bits == PipelineStateFlags::NONE,
    {
        GraphicsPipelineStateBuilder {
            rootsig: root_signature,
            vs: None,
            ps: None,
            ds: None,
            hs: None,
            gs: None,
            stream_output: Default::default(),
            blend_state: Default::default(),
            sample_mask: 0,
            rasterizer_state: Default::default(),
            depth_stencil_state: Default::default(),
            input_layout: Default::default(),
            strip_cut_value: Default::default(),
            primitive_topology_type: PrimitiveTopologyType::Triangle,
            num_render_targets: 1,
            rtv_formats: [DXGI_FORMAT_UNKNOWN; 8],
            dsv_format: DXGI_FORMAT_D24_UNORM_S8_UINT,
            sample_desc: Default::default(),
            node_mask: 0,
            cache: None,
            flags: PipelineStateFlags { bits: PipelineStateFlags::NONE },
        }
    }

    /// The number of input elements, as the native layer is told it.
    pub fn num_input_elements(&self) -> (r: u32)
        ensures
            r == crate::pipeline::rootsig::count_word(self.input_layout.elements@.len()),
    {
        crate::pipeline::rootsig::count_of(self.input_layout.elements.len())
    }
}

} // verus!
