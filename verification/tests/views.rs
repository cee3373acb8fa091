use redirect::comptr::ComPtr;
use redirect::descriptor::desc::cbv::CbvDesc;
use redirect::descriptor::desc::dsv::{
    DsvDesc, DsvDimension, DsvFlags, DsvTex1DArrayDesc, DsvTex2DDesc, DsvTex2DMsArrayDesc,
};
use redirect::descriptor::desc::rtv::{RtvBufferDesc, RtvDesc, RtvDimension, RtvTex2DArrayDesc, RtvTex3DDesc};
use redirect::descriptor::desc::srv::{
    SrvBufferDesc, SrvDesc, SrvDimension, SrvTex2DArrayDesc, SrvTex2DMsArrayDesc, SrvTexCubeArrayDesc,
};
use redirect::descriptor::desc::uav::{UavBufferDesc, UavDesc, UavDimension, UavTex2DDesc};
use redirect::descriptor::desc::{
    high_word, i32_word, low_word, Shader4ComponentMapping, ShaderComponentMapping,
};
use redirect::descriptor::heap::{
    byte_distance, is_range_within, CpuCsuHandle, CsuHeapNsv, CsuHeapSv, DescriptorCopy,
    DescriptorHeap, DescriptorHeapBuilder, DescriptorHeapCopy, DescriptorHeapDesc,
    DescriptorHeapInfo, DescriptorHeapType, GpuCsuHandle, RtvHeap,
};
use redirect::format::{DXGI_FORMAT_R16_UINT, DXGI_FORMAT_R32_UINT};
use redirect::pipeline::ia::{IndexBufferView, VertexBufferView};
use redirect::resource::buffer::{BufferSlice, UploadBuffer};
use redirect::resource::raw::GpuVAddress;
use redirect::resource::traits::Buffer;

#[test]
fn words_of_a_wide_number_are_low_then_high() {
    assert_eq!(low_word(0x1122_3344_5566_7788), 0x5566_7788);
    assert_eq!(high_word(0x1122_3344_5566_7788), 0x1122_3344);
    assert_eq!((low_word(u64::MAX), high_word(u64::MAX)), (u32::MAX, u32::MAX));
    assert_eq!((low_word(1), high_word(1)), (1, 0));
    assert_eq!(i32_word(-1), 0xffff_ffff);
    assert_eq!(i32_word(i32::MIN), 0x8000_0000);
    assert_eq!(i32_word(5), 5);
}

#[test]
fn component_mapping_code_follows_its_formula() {
    let m = Shader4ComponentMapping::default();
    assert_eq!(m.into_bits(), 1 << 23);
    let forced = Shader4ComponentMapping::new(
        ShaderComponentMapping::ForceValue1,
        ShaderComponentMapping::ForceValue0,
        ShaderComponentMapping::FromMemoryComponent0,
        ShaderComponentMapping::FromMemoryComponent0,
    );
    assert_eq!(forced.into_bits(), 9 << 18);
    let wide = Shader4ComponentMapping::new(
        ShaderComponentMapping::ForceValue1,
        ShaderComponentMapping::ForceValue1,
        ShaderComponentMapping::ForceValue1,
        ShaderComponentMapping::ForceValue1,
    );
    assert_eq!(wide.into_bits(), 0xa000_0000);
    assert_eq!(ShaderComponentMapping::ForceValue0.bits(), 4);
    assert_eq!(ShaderComponentMapping::from_bits(3), Some(ShaderComponentMapping::FromMemoryComponent3));
    assert_eq!(ShaderComponentMapping::from_bits(6), None);
}

#[test]
fn depth_stencil_views_are_laid_out_field_by_field() {
    let desc = DsvDesc {
        format: 40,
        flags: DsvFlags { bits: DsvFlags::READ_ONLY_DEPTH },
        dimension: DsvDimension::Tex1DArray(DsvTex1DArrayDesc { mip_slice: 1, first_slice: 2, array_size: 3 }),
    };
    let c = desc.into_cstruct();
    assert_eq!((c.format, c.view_dimension, c.flags.bits, c.a), (40, 2, 1, [1, 2, 3]));
    let c = DsvDesc { dimension: DsvDimension::Tex2D(DsvTex2DDesc { mip_slice: 9 }), ..desc }.into_cstruct();
    assert_eq!((c.view_dimension, c.a), (3, [9, 0, 0]));
    let c = DsvDesc { dimension: DsvDimension::Tex2DMs, ..desc }.into_cstruct();
    assert_eq!((c.view_dimension, c.a), (5, [0, 0, 0]));
    let c = DsvDesc {
        dimension: DsvDimension::Tex2DMsArray(DsvTex2DMsArrayDesc { first_slice: 4, array_size: 5 }),
        ..desc
    }
    .into_cstruct();
    assert_eq!((c.view_dimension, c.a), (6, [4, 5, 0]));
}

#[test]
fn render_target_views_are_laid_out_field_by_field() {
    let buffer = RtvDesc {
        format: 28,
        dimension: RtvDimension::Buffer(RtvBufferDesc { offset: 0x1_0000_0002, num_elements: 7 }),
    };
    let c = buffer.into_cstruct();
    assert_eq!((c.format, c.view_dimension, c.a), (28, 1, [2, 1, 7, 0]));
    let c = RtvDesc {
        format: 28,
        dimension: RtvDimension::Tex2DArray(RtvTex2DArrayDesc {
            mip_slice: 1,
            first_slice: 2,
            array_size: 3,
            plane_slice: 4,
        }),
    }
    .into_cstruct();
    assert_eq!((c.view_dimension, c.a), (5, [1, 2, 3, 4]));
    let c = RtvDesc {
        format: 28,
        dimension: RtvDimension::Tex3D(RtvTex3DDesc { mip_slice: 1, first_slice: 2, num_slices: 3 }),
    }
    .into_cstruct();
    assert_eq!((c.view_dimension, c.a), (8, [1, 2, 3, 0]));
    assert_eq!(RtvDesc { format: 28, dimension: RtvDimension::Tex2DMs }.into_cstruct().view_dimension, 6);
}

#[test]
fn shader_resource_views_are_laid_out_field_by_field() {
    let mapping = Shader4ComponentMapping::default();
    let c = SrvDesc {
        format: 0,
        component_mapping: mapping,
        dimension: SrvDimension::Buffer(SrvBufferDesc {
            offset: 0xffff_ffff_0000_0001,
            num_elements: 10,
            byte_stride: 16,
            raw: 1,
        }),
    }
    .into_cstruct();
    assert_eq!(
        (c.format, c.view_dimension, c.component_mapping, c.a),
        (0, 1, 1 << 23, [1, 0xffff_ffff, 10, 16, 1, 0])
    );
    let c = SrvDesc {
        format: 28,
        component_mapping: mapping,
        dimension: SrvDimension::Tex2DArray(SrvTex2DArrayDesc {
            most_detailed_mip: 1,
            mip_levels: -1,
            first_slice: 2,
            array_size: 3,
            plane_slice: 4,
            mip_lod_clamp: 0x3f00_0000,
        }),
    }
    .into_cstruct();
    assert_eq!((c.view_dimension, c.a), (5, [1, 0xffff_ffff, 2, 3, 4, 0x3f00_0000]));
    let c = SrvDesc {
        format: 28,
        component_mapping: mapping,
        dimension: SrvDimension::TexCubeArray(SrvTexCubeArrayDesc {
            most_detailed_mip: 0,
            mip_levels: 4,
            first_slice: 6,
            num_cubes: 2,
            mip_lod_clamp: 0,
        }),
    }
    .into_cstruct();
    assert_eq!((c.view_dimension, c.a), (10, [0, 4, 6, 2, 0, 0]));
    let c = SrvDesc {
        format: 28,
        component_mapping: mapping,
        dimension: SrvDimension::Tex2DMsArray(SrvTex2DMsArrayDesc { first_slice: 1, array_size: 2 }),
    }
    .into_cstruct();
    assert_eq!((c.view_dimension, c.a), (7, [1, 2, 0, 0, 0, 0]));
    let c = SrvDesc { format: 28, component_mapping: mapping, dimension: SrvDimension::Unknown }.into_cstruct();
    assert_eq!((c.view_dimension, c.a), (0, [0; 6]));
}

#[test]
fn unordered_access_views_are_laid_out_field_by_field() {
    let c = UavDesc {
        format: 0,
        dimension: UavDimension::Buffer(UavBufferDesc {
            offset: 3,
            num_elements: 4,
            byte_stride: 5,
            counter_offset: 0x2_0000_0008,
            raw: 0,
        }),
    }
    .into_cstruct();
    assert_eq!(
        (c.format, c.view_dimension, c.component_mapping, c.a),
        (0, 1, 0, [3, 0, 4, 5, 8, 2, 0, 0])
    );
    let c = UavDesc {
        format: 28,
        dimension: UavDimension::Tex2D(UavTex2DDesc { mip_slice: 1, plane_slice: 2 }),
    }
    .into_cstruct();
    assert_eq!((c.view_dimension, c.a), (4, [1, 2, 0, 0, 0, 0, 0, 0]));
    assert_eq!(UavDesc { format: 28, dimension: UavDimension::Unknown }.into_cstruct().view_dimension, 0);
}

#[test]
fn descriptor_heap_builder_describes_each_kind_of_heap() {
    let mut builder = DescriptorHeapBuilder::new(16);
    assert_eq!(builder, DescriptorHeapBuilder { num_descriptors: 16, node_mask: 0 });
    builder.node_mask = 2;
    let expect = |heap_type, flags| DescriptorHeapDesc { heap_type, num_descriptors: 16, flags, node_mask: 2 };
    assert_eq!(builder.build_csu_heap_shader_visible(), expect(DescriptorHeapType::CbvSrvUav, 1));
    assert_eq!(builder.build_csu_heap(), expect(DescriptorHeapType::CbvSrvUav, 0));
    assert_eq!(builder.build_rtv_heap(), expect(DescriptorHeapType::Rtv, 0));
    assert_eq!(builder.build_dsv_heap(), expect(DescriptorHeapType::Dsv, 0));
    assert_eq!(builder.build_sampler_heap_shader_visible(), expect(DescriptorHeapType::Sampler, 1));
    assert_eq!(builder.build_sampler_heap(), expect(DescriptorHeapType::Sampler, 0));
    assert_eq!(DescriptorHeapType::CbvSrvUav.bits(), 0);
    assert_eq!(DescriptorHeapType::Sampler.bits(), 1);
    assert_eq!(DescriptorHeapType::Rtv.bits(), 2);
    assert_eq!(DescriptorHeapType::Dsv.bits(), 3);
}

#[test]
fn descriptor_handles_step_by_the_increment() {
    let info = DescriptorHeapInfo {
        num_descriptors: 8,
        handle_increment_size: 32,
        cpu_start: 0x1000,
        gpu_start: 0x9_0000_0000,
    };
    let heap = CsuHeapSv::from_native(ComPtr::new(0x5), info).unwrap();
    assert_eq!(heap.len(), 8);
    assert_eq!(heap.get_handle_increment_size(), 32);
    assert_eq!(heap.get_type(), DescriptorHeapType::CbvSrvUav);
    assert_eq!(heap.get_cpu_handle(0), CpuCsuHandle { ptr: 0x1000 });
    assert_eq!(heap.get_cpu_handle(3), CpuCsuHandle { ptr: 0x1000 + 96 });
    assert_eq!(heap.get_gpu_handle(7), GpuCsuHandle { ptr: 0x9_0000_0000 + 224 });
    assert_eq!(heap.as_raw_ptr().as_ptr(), 0x5);
    assert_eq!(heap.get_info(), info);
    assert_eq!(byte_distance(u32::MAX, u32::MAX), 0xffff_fffe_0000_0001);
}

#[test]
fn descriptor_heaps_must_lie_within_the_address_space() {
    let info = DescriptorHeapInfo {
        num_descriptors: 2,
        handle_increment_size: 8,
        cpu_start: usize::MAX - 16,
        gpu_start: 0,
    };
    assert!(info.is_in_range());
    assert!(RtvHeap::from_native(ComPtr::new(1), info).is_some());
    let past = DescriptorHeapInfo { cpu_start: usize::MAX - 15, ..info };
    assert!(!past.is_in_range());
    assert!(RtvHeap::from_native(ComPtr::new(1), past).is_none());
    let gpu_past = DescriptorHeapInfo { cpu_start: 0, gpu_start: u64::MAX - 15, ..info };
    assert!(!gpu_past.is_in_range());
}

#[test]
fn descriptor_copies_name_both_ends() {
    let src = CsuHeapNsv::from_native(
        ComPtr::new(1),
        DescriptorHeapInfo { num_descriptors: 10, handle_increment_size: 16, cpu_start: 0x100, gpu_start: 0 },
    )
    .unwrap();
    let dst = CsuHeapSv::from_native(
        ComPtr::new(2),
        DescriptorHeapInfo { num_descriptors: 6, handle_increment_size: 16, cpu_start: 0x900, gpu_start: 0x40 },
    )
    .unwrap();
    assert!(is_range_within(4, 6, src.len()));
    assert!(is_range_within(0, 6, dst.len()));
    assert_eq!(
        src.copy_descriptors_to(&dst, 4, 0, 6),
        DescriptorCopy {
            num_descriptors: 6,
            dst_start: 0x900,
            src_start: 0x140,
            heap_type: DescriptorHeapType::CbvSrvUav,
        }
    );
    assert!(!is_range_within(5, 6, 10));
    assert!(!is_range_within(10, 0, 10));
    assert!(is_range_within(9, 1, 10));
    assert!(!is_range_within(1, u32::MAX, 10));
}

#[test]
fn buffer_views_are_cut_from_slices() {
    let resource = UploadBuffer::new(1024).complete(Ok(ComPtr::new(0x3))).unwrap();
    let buffer = UploadBuffer::from_resource(resource).unwrap();
    let slice = BufferSlice::from_type::<[f32; 4]>(2, 62);
    assert_eq!(slice, BufferSlice { offset: 2, length: 62, byte_stride: 16 });
    assert!(buffer.is_compatible_with(slice));
    assert!(!buffer.is_compatible_with(BufferSlice { offset: 2, length: 63, byte_stride: 16 }));
    assert!(!buffer.is_compatible_with(BufferSlice { offset: u64::MAX, length: u32::MAX, byte_stride: u32::MAX }));
    assert!(buffer.is_compatible_with(BufferSlice { offset: u64::MAX, length: u32::MAX, byte_stride: 0 }));
    assert_eq!(BufferSlice::from_bytes(5, 9), BufferSlice { offset: 5, length: 9, byte_stride: 1 });
    assert_eq!(BufferSlice::from_type::<u64>(0, 1).byte_stride, 8);

    let location = GpuVAddress { ptr: 0x8000 };
    assert_eq!(buffer.create_cbv(location), CbvDesc { buffer_location: location, size: 1024 });
    let srv = buffer.create_srv(slice).into_cstruct();
    assert_eq!((srv.format, srv.view_dimension, srv.component_mapping), (0, 1, 1 << 23));
    assert_eq!(srv.a, [2, 0, 62, 16, 0, 0]);
    let uav = buffer.create_uav(slice).into_cstruct();
    assert_eq!(uav.a, [2, 0, 62, 16, 0, 0, 0, 0]);
    let counted = buffer.create_uav_with_counter(slice, 64, 12).into_cstruct();
    assert_eq!(counted.a, [2, 0, 62, 16, 12, 0, 0, 0]);
    assert_eq!(buffer.create_vbv(location, 512, 32), VertexBufferView { location, size: 512, stride: 32 });
    assert_eq!(
        buffer.create_ibv_u32(location, 64),
        IndexBufferView { location, size: 64, format: DXGI_FORMAT_R32_UINT }
    );
    assert_eq!(
        buffer.create_ibv_u16(location, 64),
        IndexBufferView { location, size: 64, format: DXGI_FORMAT_R16_UINT }
    );
}
