//! How textures are sampled.

use vstd::prelude::*;
use smallvec::SmallVec;
use crate::list::MAX_LIST_LEN;
use crate::pipeline::ComparisonFunc;

verus! {

/// How the samples of a texture are filtered, by its native number.
///
/// The low bits say for each of minification, magnification and mipmapping
/// whether the nearest point or a linear blend is taken, or that the filter
/// is anisotropic; the bits above say what is done with the samples.
#[derive(Clone, Copy, Debug, PartialEq, Eq, Hash, Structural)]
pub struct Filter {
    pub bits: u32,
}

impl Filter {
    pub const MIN_MAG_MIP_POINT: u32 = 0x0;

    pub const MIN_MAG_POINT_MIP_LINEAR: u32 = 0x1;

    pub const MIN_POINT_MAG_LINEAR_MIP_POINT: u32 = 0x4;

    pub const MIN_POINT_MAG_MIP_LINEAR: u32 = 0x5;

    pub const MIN_LINEAR_MAG_MIP_POINT: u32 = 0x10;

    pub const MIN_LINEAR_MAG_POINT_MIP_LINEAR: u32 = 0x11;

    pub const MIN_MAG_LINEAR_MIP_POINT: u32 = 0x14;

    pub const MIN_MAG_MIP_LINEAR: u32 = 0x15;

    pub const ANISOTROPIC: u32 = 0x55;

    pub const COMPARISON_MIN_MAG_MIP_POINT: u32 = 0x80;

    pub const COMPARISON_MIN_MAG_POINT_MIP_LINEAR: u32 = 0x81;

    pub const COMPARISON_MIN_POINT_MAG_LINEAR_MIP_POINT: u32 = 0x84;

    pub const COMPARISON_MIN_POINT_MAG_MIP_LINEAR: u32 = 0x85;

    pub const COMPARISON_MIN_LINEAR_MAG_MIP_POINT: u32 = 0x90;

    pub const COMPARISON_MIN_LINEAR_MAG_POINT_MIP_LINEAR: u32 = 0x91;

    pub const COMPARISON_MIN_MAG_LINEAR_MIP_POINT: u32 = 0x94;

    pub const COMPARISON_MIN_MAG_MIP_LINEAR: u32 = 0x95;

    pub const COMPARISON_ANISOTROPIC: u32 = 0xd5;

    pub const MINIMUM_MIN_MAG_MIP_POINT: u32 = 0x100;

    pub const MINIMUM_MIN_MAG_POINT_MIP_LINEAR: u32 = 0x101;

    pub const MINIMUM_MIN_POINT_MAG_LINEAR_MIP_POINT: u32 = 0x104;

    pub const MINIMUM_MIN_POINT_MAG_MIP_LINEAR: u32 = 0x105;

    pub const MINIMUM_MIN_LINEAR_MAG_MIP_POINT: u32 = 0x110;

    pub const MINIMUM_MIN_LINEAR_MAG_POINT_MIP_LINEAR: u32 = 0x111;

    pub const MINIMUM_MIN_MAG_LINEAR_MIP_POINT: u32 = 0x114;

    pub const MINIMUM_MIN_MAG_MIP_LINEAR: u32 = 0x115;

    pub const MINIMUM_ANISOTROPIC: u32 = 0x155;

    pub const MAXIMUM_MIN_MAG_MIP_POINT: u32 = 0x180;

    pub const MAXIMUM_MIN_MAG_POINT_MIP_LINEAR: u32 = 0x181;

    pub const MAXIMUM_MIN_POINT_MAG_LINEAR_MIP_POINT: u32 = 0x184;

    pub const MAXIMUM_MIN_POINT_MAG_MIP_LINEAR: u32 = 0x185;

    pub const MAXIMUM_MIN_LINEAR_MAG_MIP_POINT: u32 = 0x190;

    pub const MAXIMUM_MIN_LINEAR_MAG_POINT_MIP_LINEAR: u32 = 0x191;

    pub const MAXIMUM_MIN_MAG_LINEAR_MIP_POINT: u32 = 0x194;

    pub const MAXIMUM_MIN_MAG_MIP_LINEAR: u32 = 0x195;

    pub const MAXIMUM_ANISOTROPIC: u32 = 0x1d5;

    /// The bits that say what is done with the samples.
    pub const REDUCTION_MASK: u32 = 0x180;

    /// Whether the filter compares the samples with a reference value.
    pub fn is_comparison(&self) -> (r: bool)
        ensures
            r == (self.bits & Filter::REDUCTION_MASK == 0x80),
    {
        self.bits & Filter::REDUCTION_MASK == 0x80
    }

    /// Whether the filter is anisotropic.
    pub fn is_anisotropic(&self) -> (r: bool)
        ensures
            r == (self.bits & 0x7f == Filter::ANISOTROPIC),
    {
        self.bits & 0x7f == Filter::ANISOTROPIC
    }
}

/// What is sampled at coordinates outside a texture.
#[derive(Clone, Copy, Debug, PartialEq, Eq, Hash, Structural)]
pub enum TextureAddressMode {
    /// The texture is repeated.
    Wrap,
    /// The texture is flipped at every whole number.
    Mirror,
    /// The edge of the texture.
    Clamp,
    /// The border color.
    Border,
    /// The texture is flipped once about zero, and then its edge.
    MirrorOnce,
}

impl TextureAddressMode {
    /// The native number of the value.
    pub open spec fn spec_bits(self) -> u32 {
        match self {
            TextureAddressMode::Wrap => 1,
            TextureAddressMode::Mirror => 2,
            TextureAddressMode::Clamp => 3,
            TextureAddressMode::Border => 4,
            TextureAddressMode::MirrorOnce => 5,
        }
    }

    /// The native number of the value.
    pub fn bits(self) -> (r: u32)
        ensures
            r == self.spec_bits(),
    {
        match self {
            TextureAddressMode::Wrap => 1,
            TextureAddressMode::Mirror => 2,
            TextureAddressMode::Clamp => 3,
            TextureAddressMode::Border => 4,
            TextureAddressMode::MirrorOnce => 5,
        }
    }

    /// The value with the native number `bits`, if there is one.
    pub fn from_bits(bits: u32) -> (r: Option<TextureAddressMode>)
        ensures
            match r {
                Some(v) => v.spec_bits() == bits,
                None => forall|v: TextureAddressMode| v.spec_bits() != bits,
            },
    {
        if bits == 1 {
            Some(TextureAddressMode::Wrap)
        } else if bits == 2 {
            Some(TextureAddressMode::Mirror)
        } else if bits == 3 {
            Some(TextureAddressMode::Clamp)
        } else if bits == 4 {
            Some(TextureAddressMode::Border)
        } else if bits == 5 {
            Some(TextureAddressMode::MirrorOnce)
        } else {
            None
        }
    }
}

impl Default for TextureAddressMode {
    /// The texture is repeated.
    fn default() -> (r: TextureAddressMode)
        ensures
            r == TextureAddressMode::Wrap,
    {
        TextureAddressMode::Wrap
    }
}

/// The color of the border of a texture.
#[derive(Clone, Copy, Debug, PartialEq, Eq, Hash, Structural)]
pub enum BorderColor {
    /// Black without alpha.
    TransparentBlack,
    /// Black.
    OpaqueBlack,
    /// White.
    OpaqueWhite,
}

impl BorderColor {
    /// The native number of the value.
    pub open spec fn spec_bits(self) -> u32 {
        match self {
            BorderColor::TransparentBlack => 0,
            BorderColor::OpaqueBlack => 1,
            BorderColor::OpaqueWhite => 2,
        }
    }

    /// The native number of the value.
    pub fn bits(self) -> (r: u32)
        ensures
            r == self.spec_bits(),
    {
        match self {
            BorderColor::TransparentBlack => 0,
            BorderColor::OpaqueBlack => 1,
            BorderColor::OpaqueWhite => 2,
        }
    }

    /// The value with the native number `bits`, if there is one.
    pub fn from_bits(bits: u32) -> (r: Option<BorderColor>)
        ensures
            match r {
                Some(v) => v.spec_bits() == bits,
                None => forall|v: BorderColor| v.spec_bits() != bits,
            },
    {
        if bits == 0 {
            Some(BorderColor::TransparentBlack)
        } else if bits == 1 {
            Some(BorderColor::OpaqueBlack)
        } else if bits == 2 {
            Some(BorderColor::OpaqueWhite)
        } else {
            None
        }
    }
}

impl Default for BorderColor {
    /// Black without alpha.
    fn default() -> (r: BorderColor)
        ensures
            r == BorderColor::TransparentBlack,
    {
        BorderColor::TransparentBlack
    }
}

/// The bits of the 32-bit float zero.
pub const F32_ZERO: u32 = 0;

/// The bits of the 32-bit float one.
pub const F32_ONE: u32 = 0x3f80_0000;

/// A sampler that lies in a root signature. The fields that hold fractions
/// hold them as the bits of 32-bit floats.
#[derive(Copy, Clone, Debug, PartialEq, Eq, Structural)]
pub struct StaticSamplerDesc {
    /// How samples are filtered.
    pub filter: Filter,
    /// What is sampled where `u` lies outside the texture.
    pub address_u: TextureAddressMode,
    /// What is sampled where `v` lies outside the texture.
    pub address_v: TextureAddressMode,
    /// What is sampled where `w` lies outside the texture.
    pub address_w: TextureAddressMode,
    /// The bias of the mipmap level.
    pub mip_bias: u32,
    /// The clamp of anisotropic filters, from 1 to 16.
    pub max_anisotropy: u32,
    /// How sampled data is compared with the data that was sampled before.
    pub comparison_func: ComparisonFunc,
    /// The color of the border.
    pub border_color: BorderColor,
    /// The most detailed mipmap level that is reached.
    pub min_lod: u32,
    /// The least detailed mipmap level that is reached.
    pub max_lod: u32,
    pub shader_register: u32,
    pub register_space: u32,
}

impl StaticSamplerDesc {
    /// A sampler with the given filter that repeats the texture, without
    /// bias, over the levels from zero to one.
    pub fn new(filter: Filter, shader_register: u32, register_space: u32) -> (r: StaticSamplerDesc)
        ensures
            r == (StaticSamplerDesc {
                filter,
                address_u: TextureAddressMode::Wrap,
                address_v: TextureAddressMode::Wrap,
                address_w: TextureAddressMode::Wrap,
                mip_bias: F32_ZERO,
                max_anisotropy: 1,
                comparison_func: ComparisonFunc::Always,
                border_color: BorderColor::TransparentBlack,
                min_lod: F32_ZERO,
                max_lod: F32_ONE,
                shader_register,
                register_space,
            }),
    {
        StaticSamplerDesc {
            filter,
            address_u: TextureAddressMode::Wrap,
            address_v: TextureAddressMode::Wrap,
            address_w: TextureAddressMode::Wrap,
            mip_bias: F32_ZERO,
            max_anisotropy: 1,
            comparison_func: ComparisonFunc::Always,
            border_color: BorderColor::TransparentBlack,
            min_lod: F32_ZERO,
            max_lod: F32_ONE,
            shader_register,
            register_space,
        }
    }

    /// Whether the clamp of anisotropic filters lies from 1 to 16.
    pub fn has_valid_anisotropy(&self) -> (r: bool)
        ensures
            r == (1 <= self.max_anisotropy <= 16),
    {
        1 <= self.max_anisotropy && self.max_anisotropy <= 16
    }
}

/// A `SmallVec` of static samplers, which keeps up to eight of them in place.
#[derive(Debug)]
#[verifier::external_body]
pub struct StaticSamplerList {
    inner: SmallVec<[StaticSamplerDesc; 8]>,
}

/// The static samplers that a list holds, first pushed first.
pub uninterp spec fn static_sampler_list_items(list: StaticSamplerList) -> Seq<StaticSamplerDesc>;

/// `SmallVec::new`: a vector that holds nothing.
#[verifier::external_body]
fn static_sampler_list_new() -> (r: StaticSamplerList)
    ensures
        static_sampler_list_items(r) == Seq::<StaticSamplerDesc>::empty(),
{
    StaticSamplerList { inner: SmallVec::new() }
}

/// `SmallVec::push`: the item is appended behind those that the vector
/// holds, which stay as they are. The vector grows by powers of two and
/// gives up where the byte count of the new capacity overflows; with fewer
/// than `MAX_LIST_LEN` items it does not.
#[verifier::external_body]
fn static_sampler_list_push(list: &mut StaticSamplerList, item: StaticSamplerDesc)
    requires
        static_sampler_list_items(*old(list)).len() < MAX_LIST_LEN,
    ensures
        static_sampler_list_items(*final(list)) == static_sampler_list_items(*old(list)).push(item),
{
    list.inner.push(item)
}

/// `SmallVec::as_slice`: the items held, in their order, as one slice.
#[verifier::external_body]
fn static_sampler_list_as_slice(list: &StaticSamplerList) -> (r: &[StaticSamplerDesc])
    ensures
        r@ == static_sampler_list_items(*list),
{
    list.inner.as_slice()
}

impl StaticSamplerList {
    /// The static samplers of the list, first pushed first.
    pub closed spec fn view(&self) -> Seq<StaticSamplerDesc> {
        static_sampler_list_items(*self)
    }

    /// An empty list.
    pub fn new() -> (r: StaticSamplerList)
        ensures
            r@ == Seq::<StaticSamplerDesc>::empty(),
    {
        static_sampler_list_new()
    }

    /// The number of static samplers in the list.
    pub fn len(&self) -> (r: usize)
        ensures
            r == self@.len(),
    {
        static_sampler_list_as_slice(self).len()
    }

    /// Appends an item to the list.
    pub fn push(&mut self, item: StaticSamplerDesc)
        requires
            old(self)@.len() < MAX_LIST_LEN,
        ensures
            final(self)@ == old(self)@.push(item),
    {
        static_sampler_list_push(self, item)
    }

    /// Appends an item to the list, unless the list is full; hands the item
    /// back where it is.
    pub fn try_push(&mut self, item: StaticSamplerDesc) -> (r: Option<StaticSamplerDesc>)
        ensures
            old(self)@.len() < MAX_LIST_LEN ==> r is None && final(self)@ == old(self)@.push(
                item,
            ),
            old(self)@.len() >= MAX_LIST_LEN ==> r == Some(item) && final(self)@ == old(self)@,
    {
        if self.len() < MAX_LIST_LEN {
            self.push(item);
            None
        } else {
            Some(item)
        }
    }

    /// The static samplers as one slice, in their order.
    pub fn as_slice(&self) -> (r: &[StaticSamplerDesc])
        ensures
            r@ == self@,
    {
        static_sampler_list_as_slice(self)
    }
}

impl Default for StaticSamplerList {
    /// An empty list.
    fn default() -> (r: StaticSamplerList)
        ensures
            r@ == Seq::<StaticSamplerDesc>::empty(),
    {
        StaticSamplerList::new()
    }
}

} // verus!
