//! Two-dimensional textures with a heap of their own.

use vstd::prelude::*;
use crate::format::{
    DxgiFormat,
    DXGI_FORMAT_D16_UNORM,
    DXGI_FORMAT_D24_UNORM_S8_UINT,
    DXGI_FORMAT_D32_FLOAT,
    DXGI_FORMAT_D32_FLOAT_S8X24_UINT,
};
use crate::resource::committed::{
    CommittedResource,
    CommittedResourceInfo,
    CommittedResourceRequest,
};
use crate::resource::description::{
    ResourceAlignment,
    ResourceDesc,
    ResourceDimension,
    ResourceFlags,
    TextureLayout,
};
use crate::resource::heap::description::{
    HeapFlags,
    HeapProperties,
    HeapType,
    MemoryPoolPreference,
    PageProperty,
};
use crate::resource::raw::RawResource;
use crate::resource::state::ResourceStates;
use crate::resource::traits::{
    AllowDepthStencil,
    AllowRenderTarget,
    AllowShaderResource,
    GpuOnly,
    Resource,
    Tex2D,
    Texture,
};
use crate::swapchain::SampleDesc;

verus! {

/// What a committed two-dimensional texture of one slice on a default heap
/// is made from.
pub open spec fn committed_tex2d_info(
    width: u64,
    height: u32,
    mip_levels: u16,
    format: DxgiFormat,
    flags: u32,
    initial_state: u32,
) -> CommittedResourceInfo {
    CommittedResourceInfo {
        heap_properties: HeapProperties {
            heap_type: HeapType::Default,
            page: PageProperty::Unknown,
            pool_preference: MemoryPoolPreference::Unknown,
            creation_node_mask: 0,
            visible_node_mask: 0,
        },
        heap_flags: HeapFlags { bits: 0 },
        desc: ResourceDesc {
            dimension: ResourceDimension::Texture2D,
            alignment: ResourceAlignment::Default,
            width,
            height,
            depth: 1,
            mip_levels,
            format,
            sample_desc: SampleDesc { count: 1, quality: 0 },
            layout: TextureLayout::Unknown,
            flags: ResourceFlags { bits: flags },
        },
        initial_state: ResourceStates { bits: initial_state },
    }
}

/// Whether a committed resource is a two-dimensional texture on a default
/// heap with at least the given options.
pub open spec fn is_tex2d_with(info: CommittedResourceInfo, flags: u32) -> bool {
    &&& info.heap_properties.heap_type == HeapType::Default
    &&& info.desc.dimension == ResourceDimension::Texture2D
    &&& info.desc.flags.bits & flags == flags
}

/// Whether a format holds depth.
pub open spec fn is_depth_format(format: DxgiFormat) -> bool {
    ||| format == DXGI_FORMAT_D16_UNORM
    ||| format == DXGI_FORMAT_D32_FLOAT
    ||| format == DXGI_FORMAT_D24_UNORM_S8_UINT
    ||| format == DXGI_FORMAT_D32_FLOAT_S8X24_UINT
}

/// Whether a format holds depth.
pub fn holds_depth(format: DxgiFormat) -> (r: bool)
    ensures
        r == is_depth_format(format),
{
    format == DXGI_FORMAT_D16_UNORM || format == DXGI_FORMAT_D32_FLOAT || format
        == DXGI_FORMAT_D24_UNORM_S8_UINT || format == DXGI_FORMAT_D32_FLOAT_S8X24_UINT
}

/// A texture that shaders read.
#[derive(Debug)]
pub struct DefaultTex2D {
    resource: CommittedResource,
}

impl DefaultTex2D {
    /// The resource that is the texture.
    pub closed spec fn view(&self) -> CommittedResource {
        self.resource
    }

    #[verifier::type_invariant]
    spec fn inv(&self) -> bool {
        is_tex2d_with(self.resource.info(), 0)
    }

    /// Begins the creation of a texture, which starts in the generic read state.
    pub fn new(width: u64, height: u32, mip_levels: u16, format: DxgiFormat) -> (r: CommittedResourceRequest)
        ensures
            r@ == committed_tex2d_info(width, height, mip_levels, format, 0, ResourceStates::GENERIC_READ),
    {
        CommittedResource::create(
            &HeapProperties::new(HeapType::Default),
            HeapFlags { bits: 0 },
            &ResourceDesc::tex2d(
                width,
                height,
                1,
                mip_levels,
                format,
                ResourceFlags { bits: ResourceFlags::NONE },
                ResourceAlignment::Default,
            ),
            ResourceStates::generic_read(),
        )
    }

    /// Takes a committed resource as such a texture, if it is one.
    pub fn from_resource(resource: CommittedResource) -> (r: Option<DefaultTex2D>)
        ensures
            is_tex2d_with(resource.info(), 0) ==> r is Some && r->Some_0@ == resource,
            !is_tex2d_with(resource.info(), 0) ==> r is None,
    {
        let info = resource.get_info();
        if info.heap_properties.heap_type == HeapType::Default && info.desc.dimension
            == ResourceDimension::Texture2D && info.desc.flags.bits & ResourceFlags::NONE == ResourceFlags::NONE {
            Some(DefaultTex2D { resource })
        } else {
            None
        }
    }

    /// The number of mipmap levels.
    pub fn get_mip_levels(&self) -> (r: u16)
        ensures
            r == self@.info().desc.mip_levels,
    {
        self.resource.get_info().desc.mip_levels
    }
}

impl Resource for DefaultTex2D {
    open spec fn raw(&self) -> RawResource {
        self@.raw()
    }

    fn as_raw(&self) -> (r: &RawResource) {
        self.resource.as_raw()
    }
}

impl Texture for DefaultTex2D {
    open spec fn format(&self) -> DxgiFormat {
        self@.info().desc.format
    }

    fn get_format(&self) -> (r: DxgiFormat) {
        self.resource.get_info().desc.format
    }
}

impl Tex2D for DefaultTex2D {
    open spec fn extent(&self) -> (u64, u32) {
        (self@.info().desc.width, self@.info().desc.height)
    }

    fn get_width(&self) -> (r: u64) {
        self.resource.get_info().desc.width
    }

    fn get_height(&self) -> (r: u32) {
        self.resource.get_info().desc.height
    }
}

impl GpuOnly for DefaultTex2D {

}

impl AllowShaderResource for DefaultTex2D {

}

/// A texture that may be a depth stencil buffer.
#[derive(Debug)]
pub struct DsableTex2D {
    resource: CommittedResource,
}

impl DsableTex2D {
    /// The resource that is the texture.
    pub closed spec fn view(&self) -> CommittedResource {
        self.resource
    }

    #[verifier::type_invariant]
    spec fn inv(&self) -> bool {
        is_tex2d_with(self.resource.info(), ResourceFlags::ALLOW_DEPTH_STENCIL)
    }

    /// Begins the creation of a texture, which starts in the depth write state. The
    /// format must hold depth.
    pub fn new(width: u64, height: u32, mip_levels: u16, format: DxgiFormat) -> (r: CommittedResourceRequest)
        requires
            is_depth_format(format),
        ensures
            r@ == committed_tex2d_info(width, height, mip_levels, format, ResourceFlags::ALLOW_DEPTH_STENCIL, ResourceStates::DEPTH_WRITE),
    {
        CommittedResource::create(
            &HeapProperties::new(HeapType::Default),
            HeapFlags { bits: 0 },
            &ResourceDesc::tex2d(
                width,
                height,
                1,
                mip_levels,
                format,
                ResourceFlags { bits: ResourceFlags::ALLOW_DEPTH_STENCIL },
                ResourceAlignment::Default,
            ),
            ResourceStates::depth_write(),
        )
    }

    /// Takes a committed resource as such a texture, if it is one.
    pub fn from_resource(resource: CommittedResource) -> (r: Option<DsableTex2D>)
        ensures
            is_tex2d_with(resource.info(), ResourceFlags::ALLOW_DEPTH_STENCIL) ==> r is Some && r->Some_0@ == resource,
            !is_tex2d_with(resource.info(), ResourceFlags::ALLOW_DEPTH_STENCIL) ==> r is None,
    {
        let info = resource.get_info();
        if info.heap_properties.heap_type == HeapType::Default && info.desc.dimension
            == ResourceDimension::Texture2D && info.desc.flags.bits & ResourceFlags::ALLOW_DEPTH_STENCIL == ResourceFlags::ALLOW_DEPTH_STENCIL {
            Some(DsableTex2D { resource })
        } else {
            None
        }
    }

    /// The number of mipmap levels.
    pub fn get_mip_levels(&self) -> (r: u16)
        ensures
            r == self@.info().desc.mip_levels,
    {
        self.resource.get_info().desc.mip_levels
    }
}

impl Resource for DsableTex2D {
    open spec fn raw(&self) -> RawResource {
        self@.raw()
    }

    fn as_raw(&self) -> (r: &RawResource) {
        self.resource.as_raw()
    }
}

impl Texture for DsableTex2D {
    open spec fn format(&self) -> DxgiFormat {
        self@.info().desc.format
    }

    fn get_format(&self) -> (r: DxgiFormat) {
        self.resource.get_info().desc.format
    }
}

impl Tex2D for DsableTex2D {
    open spec fn extent(&self) -> (u64, u32) {
        (self@.info().desc.width, self@.info().desc.height)
    }

    fn get_width(&self) -> (r: u64) {
        self.resource.get_info().desc.width
    }

    fn get_height(&self) -> (r: u32) {
        self.resource.get_info().desc.height
    }
}

impl GpuOnly for DsableTex2D {

}

impl AllowShaderResource for DsableTex2D {

}

impl AllowDepthStencil for DsableTex2D {

}

/// A texture that may be a render target.
#[derive(Debug)]
pub struct RenderableTex2D {
    resource: CommittedResource,
}

impl RenderableTex2D {
    /// The resource that is the texture.
    pub closed spec fn view(&self) -> CommittedResource {
        self.resource
    }

    #[verifier::type_invariant]
    spec fn inv(&self) -> bool {
        is_tex2d_with(self.resource.info(), ResourceFlags::ALLOW_RENDER_TARGET)
    }

    /// Begins the creation of a texture, which starts in the generic read state.
    pub fn new(width: u64, height: u32, mip_levels: u16, format: DxgiFormat) -> (r: CommittedResourceRequest)
        ensures
            r@ == committed_tex2d_info(width, height, mip_levels, format, ResourceFlags::ALLOW_RENDER_TARGET, ResourceStates::GENERIC_READ),
    {
        CommittedResource::create(
            &HeapProperties::new(HeapType::Default),
            HeapFlags { bits: 0 },
            &ResourceDesc::tex2d(
                width,
                height,
                1,
                mip_levels,
                format,
                ResourceFlags { bits: ResourceFlags::ALLOW_RENDER_TARGET },
                ResourceAlignment::Default,
            ),
            ResourceStates::generic_read(),
        )
    }

    /// Takes a committed resource as such a texture, if it is one.
    pub fn from_resource(resource: CommittedResource) -> (r: Option<RenderableTex2D>)
        ensures
            is_tex2d_with(resource.info(), ResourceFlags::ALLOW_RENDER_TARGET) ==> r is Some && r->Some_0@ == resource,
            !is_tex2d_with(resource.info(), ResourceFlags::ALLOW_RENDER_TARGET) ==> r is None,
    {
        let info = resource.get_info();
        if info.heap_properties.heap_type == HeapType::Default && info.desc.dimension
            == ResourceDimension::Texture2D && info.desc.flags.bits & ResourceFlags::ALLOW_RENDER_TARGET == ResourceFlags::ALLOW_RENDER_TARGET {
            Some(RenderableTex2D { resource })
        } else {
            None
        }
    }

    /// The number of mipmap levels.
    pub fn get_mip_levels(&self) -> (r: u16)
        ensures
            r == self@.info().desc.mip_levels,
    {
        self.resource.get_info().desc.mip_levels
    }
}

impl Resource for RenderableTex2D {
    open spec fn raw(&self) -> RawResource {
        self@.raw()
    }

    fn as_raw(&self) -> (r: &RawResource) {
        self.resource.as_raw()
    }
}

impl Texture for RenderableTex2D {
    open spec fn format(&self) -> DxgiFormat {
        self@.info().desc.format
    }

    fn get_format(&self) -> (r: DxgiFormat) {
        self.resource.get_info().desc.format
    }
}

impl Tex2D for RenderableTex2D {
    open spec fn extent(&self) -> (u64, u32) {
        (self@.info().desc.width, self@.info().desc.height)
    }

    fn get_width(&self) -> (r: u64) {
        self.resource.get_info().desc.width
    }

    fn get_height(&self) -> (r: u32) {
        self.resource.get_info().desc.height
    }
}

impl GpuOnly for RenderableTex2D {

}

impl AllowShaderResource for RenderableTex2D {

}

impl AllowRenderTarget for RenderableTex2D {

}

} // verus!
