//! Descriptions of samplers that lie in descriptor heaps.

use vstd::prelude::*;
use crate::pipeline::sampler::{BorderColor, Filter, TextureAddressMode};
use crate::pipeline::ComparisonFunc;

verus! {

/// Describes a sampler. The fields that hold fractions hold them as the
/// bits of 32-bit floats.
#[derive(Copy, Clone, Debug, PartialEq, Eq, Structural)]
pub struct SamplerDesc {
    /// How samples are filtered.
    pub filter: Filter,
    /// What is sampled where `u` lies outside the texture.
    pub address_u: TextureAddressMode,
    /// What is sampled where `v` lies outside the texture.
    pub address_v: TextureAddressMode,
    /// What is sampled where `w` lies outside the texture.
    pub address_w: TextureAddressMode,
    /// The bias of the mipmap level.
    pub mip_bias: u32,
    /// The clamp of anisotropic filters, from 1 to 16.
    pub max_anisotropy: u32,
    /// How sampled data is compared with the data that was sampled before.
    pub comparison_func: ComparisonFunc,
    /// The color of the border.
    pub border_color: BorderColor,
    /// The most detailed mipmap level that is reached.
    pub min_lod: u32,
    /// The least detailed mipmap level that is reached.
    pub max_lod: u32,
}

} // verus!
