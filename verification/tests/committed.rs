use redirect::comptr::ComPtr;
use redirect::error::{CreationError, WinError, DXGI_ERROR_DEVICE_REMOVED};
use redirect::format::{DXGI_FORMAT_D32_FLOAT, DXGI_FORMAT_R8G8B8A8_UNORM, DXGI_FORMAT_UNKNOWN};
use redirect::resource::buffer::{DefaultBuffer, ReadbackBuffer, UploadBuffer};
use redirect::resource::committed::{
    initial_state_on, CommittedResource, CommittedResourceInfo,
};
use redirect::resource::description::{
    ResourceAlignment, ResourceDesc, ResourceDimension, ResourceFlags, TextureLayout,
};
use redirect::resource::heap::description::{HeapFlags, HeapProperties, HeapType};
use redirect::resource::raw::RawResource;
use redirect::resource::state::ResourceStates;
use redirect::resource::texture::{holds_depth, DefaultTex2D, DsableTex2D, RenderableTex2D};
use redirect::resource::traits::{Buffer, CpuReadBuffer, CpuWriteBuffer, Resource, Tex2D, Texture};
use redirect::swapchain::SampleDesc;

#[test]
fn upload_buffer_starts_in_generic_read_whatever_is_asked() {
    let properties = HeapProperties::new(HeapType::Upload);
    let desc = ResourceDesc::buffer(256, ResourceFlags { bits: 0 });
    let request = CommittedResource::create(
        &properties,
        HeapFlags { bits: 0 },
        &desc,
        ResourceStates { bits: ResourceStates::COMMON },
    );
    assert_eq!(request.info().initial_state, ResourceStates { bits: ResourceStates::GENERIC_READ });
    assert_ne!(request.info().initial_state, ResourceStates { bits: ResourceStates::COMMON });
    let resource = request.complete(Ok(ComPtr::new(0x40))).unwrap();
    assert_eq!(resource.initial_state().bits, 0xac3);
    assert_eq!(resource.get_info().desc, desc);
    assert_eq!(resource.get_info().heap_properties, properties);
    assert_eq!(resource.as_raw().as_comptr().as_ptr(), 0x40);
}

#[test]
fn readback_resources_start_as_copy_destinations() {
    let request = CommittedResource::create(
        &HeapProperties::new(HeapType::Readback),
        HeapFlags { bits: 0 },
        &ResourceDesc::buffer(64, ResourceFlags { bits: 0 }),
        ResourceStates { bits: ResourceStates::GENERIC_READ },
    );
    assert_eq!(request.info().initial_state.bits, ResourceStates::COPY_DEST);
}

#[test]
fn other_heaps_take_the_state_that_is_asked_for() {
    for heap_type in [HeapType::Default, HeapType::Custom] {
        for bits in [0u32, ResourceStates::RENDER_TARGET, ResourceStates::COPY_DEST, 0xac3] {
            assert_eq!(initial_state_on(heap_type, ResourceStates { bits }).bits, bits);
        }
    }
    for bits in [0u32, 0x4, 0x400, 0xac3] {
        assert_eq!(initial_state_on(HeapType::Upload, ResourceStates { bits }).bits, 0xac3);
        assert_eq!(initial_state_on(HeapType::Readback, ResourceStates { bits }).bits, 0x400);
    }
}

#[test]
fn native_failure_of_a_committed_resource_is_handed_on() {
    let request = CommittedResource::create(
        &HeapProperties::new(HeapType::Default),
        HeapFlags { bits: 0 },
        &ResourceDesc::buffer(64, ResourceFlags { bits: 0 }),
        ResourceStates { bits: 0 },
    );
    let r = request.complete(Err(WinError { hr: DXGI_ERROR_DEVICE_REMOVED }));
    assert!(matches!(r, Err(CreationError::Native(WinError { hr: DXGI_ERROR_DEVICE_REMOVED }))));
}

#[test]
fn committed_from_raw_refuses_a_state_that_the_heap_forbids() {
    let info = CommittedResourceInfo {
        heap_properties: HeapProperties::new(HeapType::Upload),
        heap_flags: HeapFlags { bits: 0 },
        desc: ResourceDesc::buffer(64, ResourceFlags { bits: 0 }),
        initial_state: ResourceStates { bits: ResourceStates::COMMON },
    };
    assert!(CommittedResource::from_raw(RawResource::from_comptr(ComPtr::new(1)), info).is_none());
    let fixed = CommittedResourceInfo {
        initial_state: ResourceStates { bits: ResourceStates::GENERIC_READ },
        ..info
    };
    assert!(CommittedResource::from_raw(RawResource::from_comptr(ComPtr::new(1)), fixed).is_some());
}

#[test]
fn buffer_description_is_one_row_without_format() {
    for (size, flags) in [(0u64, 0u32), (1, 0), (256, 0x4), (u64::MAX, 0x3f), (65536, 0xffff_ffff)] {
        let desc = ResourceDesc::buffer(size, ResourceFlags { bits: flags });
        assert_eq!(desc.dimension, ResourceDimension::Buffer);
        assert_eq!(desc.alignment, ResourceAlignment::Default);
        assert_eq!(desc.width, size);
        assert_eq!(desc.height, 1);
        assert_eq!(desc.depth, 1);
        assert_eq!(desc.mip_levels, 1);
        assert_eq!(desc.format, DXGI_FORMAT_UNKNOWN);
        assert_eq!(desc.sample_desc, SampleDesc { count: 1, quality: 0 });
        assert_eq!(desc.layout, TextureLayout::RowMajor);
        assert_eq!(desc.flags.bits, flags);
        assert_eq!(desc, ResourceDesc::buffer(size, ResourceFlags { bits: flags }));
        assert_eq!(desc.is_well_formed(), size > 0);
    }
}

#[test]
fn texture_descriptions_fill_what_they_do_not_take() {
    let flags = ResourceFlags { bits: ResourceFlags::ALLOW_RENDER_TARGET };
    let t1 = ResourceDesc::tex1d(128, 4, 3, DXGI_FORMAT_R8G8B8A8_UNORM, flags, ResourceAlignment::FourKb);
    assert_eq!(
        t1,
        ResourceDesc {
            dimension: ResourceDimension::Texture1D,
            alignment: ResourceAlignment::FourKb,
            width: 128,
            height: 1,
            depth: 4,
            mip_levels: 3,
            format: 28,
            sample_desc: SampleDesc { count: 1, quality: 0 },
            layout: TextureLayout::Unknown,
            flags,
        }
    );
    let t2 = ResourceDesc::tex2d(640, 480, 6, 1, 28, flags, ResourceAlignment::SixtyFourKb);
    assert_eq!(t2.dimension, ResourceDimension::Texture2D);
    assert_eq!((t2.width, t2.height, t2.depth, t2.mip_levels), (640, 480, 6, 1));
    assert_eq!(t2.layout, TextureLayout::Unknown);
    let t3 = ResourceDesc::tex3d(16, 8, 4, 0, 28, flags, ResourceAlignment::Default);
    assert_eq!(t3.dimension, ResourceDimension::Texture3D);
    assert_eq!((t3.width, t3.height, t3.depth, t3.mip_levels), (16, 8, 4, 0));
    assert!(t1.is_well_formed() && t2.is_well_formed() && t3.is_well_formed());
    assert!(!ResourceDesc::tex2d(0, 480, 1, 1, 28, flags, ResourceAlignment::Default).is_well_formed());
    assert!(!ResourceDesc::tex3d(16, 8, 0, 1, 28, flags, ResourceAlignment::Default).is_well_formed());
    assert!(!t2.is_multisampled());
    let mut unknown = t2;
    unknown.dimension = ResourceDimension::Unknown;
    assert!(!unknown.is_well_formed());
}

#[test]
fn resource_alignments_have_their_byte_values() {
    assert_eq!(ResourceAlignment::Default.byte_value(), 65536);
    assert_eq!(ResourceAlignment::FourKb.byte_value(), 4096);
    assert_eq!(ResourceAlignment::SixtyFourKb.byte_value(), 65536);
    assert_eq!(ResourceAlignment::FourMb.byte_value(), 4 * 1024 * 1024);
    assert_eq!(ResourceAlignment::FourMb.bits(), 0x40_0000);
    assert_eq!(ResourceAlignment::from_bits(0), Some(ResourceAlignment::Default));
    assert_eq!(ResourceAlignment::from_bits(0x1000), Some(ResourceAlignment::FourKb));
    assert_eq!(ResourceAlignment::from_bits(0x2000), None);
    assert_eq!(ResourceDimension::Texture3D.bits(), 4);
    assert_eq!(ResourceDimension::from_bits(1), Some(ResourceDimension::Buffer));
    assert_eq!(TextureLayout::from_bits(3), Some(TextureLayout::StandardSwizzle));
    assert_eq!(TextureLayout::default(), TextureLayout::Unknown);
}

#[test]
fn typed_buffers_are_made_on_their_heaps() {
    let upload = UploadBuffer::new(512);
    assert_eq!(upload.info().heap_properties.heap_type, HeapType::Upload);
    assert_eq!(upload.info().desc, ResourceDesc::buffer(512, ResourceFlags { bits: 0 }));
    assert_eq!(upload.info().initial_state.bits, ResourceStates::GENERIC_READ);
    let resource = upload.complete(Ok(ComPtr::new(0x60))).unwrap();
    let buffer = UploadBuffer::from_resource(resource).unwrap();
    assert_eq!(buffer.get_size(), 512);
    assert_eq!(buffer.as_raw().as_comptr().as_ptr(), 0x60);
    assert!(buffer.can_write(512, None));
    assert!(!buffer.can_write(513, None));
    assert!(buffer.can_write(12, Some((500, 512))));
    assert!(!buffer.can_write(13, Some((500, 512))));
    assert!(!buffer.can_write(1, Some((500, 513))));
    assert!(!buffer.can_write(0, Some((8, 4))));

    let readback = ReadbackBuffer::new(1024);
    assert_eq!(readback.info().initial_state.bits, ResourceStates::COPY_DEST);
    let resource = readback.complete(Ok(ComPtr::new(0x61))).unwrap();
    assert!(UploadBuffer::from_resource(
        ReadbackBuffer::new(8).complete(Ok(ComPtr::new(0x62))).unwrap()
    )
    .is_none());
    let buffer = ReadbackBuffer::from_resource(resource).unwrap();
    assert_eq!(buffer.read_len(None), Some(1024));
    assert_eq!(buffer.read_len(Some((24, 1024))), Some(1000));
    assert_eq!(buffer.read_len(Some((24, 1025))), None);
    assert_eq!(buffer.read_len(Some((25, 24))), None);

    let default = DefaultBuffer::new(64);
    assert_eq!(default.info().heap_properties.heap_type, HeapType::Default);
    assert_eq!(default.info().initial_state.bits, ResourceStates::GENERIC_READ);
    let buffer = DefaultBuffer::from_resource(default.complete(Ok(ComPtr::new(0x63))).unwrap());
    assert_eq!(buffer.unwrap().get_size(), 64);
}

#[test]
fn typed_textures_are_made_with_their_flags_and_states() {
    let plain = DefaultTex2D::new(640, 480, 1, DXGI_FORMAT_R8G8B8A8_UNORM);
    assert_eq!(
        plain.info().desc,
        ResourceDesc::tex2d(640, 480, 1, 1, 28, ResourceFlags { bits: 0 }, ResourceAlignment::Default)
    );
    assert_eq!(plain.info().initial_state.bits, ResourceStates::GENERIC_READ);
    let tex = DefaultTex2D::from_resource(plain.complete(Ok(ComPtr::new(0x70))).unwrap()).unwrap();
    assert_eq!((tex.get_width(), tex.get_height(), tex.get_format()), (640, 480, 28));
    assert_eq!(tex.get_mip_levels(), 1);

    let depth = DsableTex2D::new(64, 64, 1, DXGI_FORMAT_D32_FLOAT);
    assert_eq!(depth.info().desc.flags.bits, ResourceFlags::ALLOW_DEPTH_STENCIL);
    assert_eq!(depth.info().initial_state.bits, ResourceStates::DEPTH_WRITE);
    let resource = depth.complete(Ok(ComPtr::new(0x71))).unwrap();
    assert!(DsableTex2D::from_resource(resource).is_some());

    let target = RenderableTex2D::new(64, 64, 4, 28);
    assert_eq!(target.info().desc.flags.bits, ResourceFlags::ALLOW_RENDER_TARGET);
    assert_eq!(target.info().desc.mip_levels, 4);
    let resource = target.complete(Ok(ComPtr::new(0x72))).unwrap();
    assert!(DsableTex2D::from_resource(resource).is_none());

    assert!(holds_depth(55) && holds_depth(40) && holds_depth(45) && holds_depth(20));
    assert!(!holds_depth(28) && !holds_depth(0));
}
