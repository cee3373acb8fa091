use redirect::command::list::bundle::{bundle_reset_args, Bundle, BundleCommandAllocator};
use redirect::command::list::common::{
    rect_count_of, state_address_of, CommandList, ComputePipelineState, GraphicsPipelineState,
    ResetArgs,
};
use redirect::command::list::direct::{heap_address_of, DirectCommandAllocator, DirectCommandList};
use redirect::command::queue::{CommandQueueDesc, CommandQueueFlags, CommandQueuePriority};
use redirect::command::{CommandListType, DepthStencilClearFlags};
use redirect::comptr::ComPtr;
use redirect::descriptor::heap::{CsuHeapSv, DescriptorHeapInfo, DsvHeap, RtvHeap, SamplerHeapSv};
use redirect::device::FeatureLevel;
use redirect::error::{WinError, DXGI_ERROR_DEVICE_REMOVED};
use redirect::fence::FenceFlags;
use redirect::format::Rect;
use redirect::shader::reflection::{Version, VersionType};
use redirect::shader::{ShaderBuilder, ShaderCompileFlags, ShaderMacro, VS_TARGET};
use redirect::swapchain::{
    is_sync_interval, AlphaMode, PresentFlags, Scaling, SwapChainDesc, SwapChainFlags,
    SwapChainResizeDesc, SwapEffect,
};

fn info() -> DescriptorHeapInfo {
    DescriptorHeapInfo { num_descriptors: 4, handle_increment_size: 8, cpu_start: 0x100, gpu_start: 0x200 }
}

#[test]
fn direct_list_records_and_closes() {
    let alloc = DirectCommandAllocator { ptr: ComPtr::new(0xa1) };
    let state = GraphicsPipelineState { ptr: ComPtr::new(0x51) };
    let list = DirectCommandList { ptr: ComPtr::new(0xc1) };
    assert_eq!(list.get_type(), CommandListType::Direct);
    assert_eq!(
        list.reset_args(&alloc, Some(&state)),
        ResetArgs { list: 0xc1, alloc: 0xa1, initial_state: 0x51 }
    );
    assert_eq!(
        list.reset_args::<ComputePipelineState>(&alloc, None),
        ResetArgs { list: 0xc1, alloc: 0xa1, initial_state: 0 }
    );
    let recording = list.start_graphics(&alloc, Some(&state), 0).unwrap();
    assert_eq!(recording.ptr.as_ptr(), 0xc1);
    assert_eq!(recording.alloc.ptr.as_ptr(), 0xa1);
    assert_eq!(recording.clear_state(), 0x51);
    assert_eq!(recording.as_raw_ptr().as_ptr(), 0xc1);
    let views = CsuHeapSv::from_native(ComPtr::new(0x71), info()).unwrap();
    let samplers = SamplerHeapSv::from_native(ComPtr::new(0x72), info()).unwrap();
    assert_eq!(recording.set_descriptor_heaps(Some(&views), Some(&samplers)), [0x72, 0x71]);
    assert_eq!(recording.set_descriptor_heaps(Some(&views), None), [0, 0x71]);
    assert_eq!(recording.set_descriptor_heaps(None, None), [0, 0]);
    let other = DirectCommandAllocator { ptr: ComPtr::new(0xa2) };
    let recording = recording.reset::<GraphicsPipelineState>(&other, None, 0).unwrap();
    assert_eq!(recording.alloc.ptr.as_ptr(), 0xa2);
    assert_eq!(recording.clear_state(), 0);
    let closed = recording.close(0).unwrap();
    assert_eq!(closed.ptr.as_ptr(), 0xc1);
    let compute = ComputePipelineState { ptr: ComPtr::new(0x52) };
    let recording = closed.start_compute(&alloc, Some(&compute), 1).unwrap();
    assert_eq!(recording.clear_state(), 0x52);
}

#[test]
fn direct_list_stays_as_it_was_when_the_native_layer_fails() {
    let alloc = DirectCommandAllocator { ptr: ComPtr::new(0xa1) };
    let list = DirectCommandList { ptr: ComPtr::new(0xc1) };
    let (error, list) = list.start_graphics(&alloc, None, DXGI_ERROR_DEVICE_REMOVED).unwrap_err();
    assert_eq!(error, WinError { hr: DXGI_ERROR_DEVICE_REMOVED });
    assert_eq!(list.ptr.as_ptr(), 0xc1);
    let recording = list.start_graphics(&alloc, None, 0).unwrap();
    let (error, recording) = recording.reset::<GraphicsPipelineState>(&alloc, None, -7).unwrap_err();
    assert_eq!(error.hr, -7);
    assert_eq!(recording.ptr.as_ptr(), 0xc1);
    assert_eq!(recording.close(-9).unwrap_err(), WinError { hr: -9 });
}

#[test]
fn bundle_binds_heaps_once() {
    let alloc = BundleCommandAllocator { ptr: ComPtr::new(0xb1) };
    let bundle = Bundle { ptr: ComPtr::new(0xc2) };
    assert_eq!(bundle.get_type(), CommandListType::Bundle);
    let state = GraphicsPipelineState { ptr: ComPtr::new(0x51) };
    assert_eq!(
        bundle_reset_args(&bundle.ptr, &alloc, Some(&state)),
        ResetArgs { list: 0xc2, alloc: 0xb1, initial_state: 0x51 }
    );
    let recording = bundle.start(&alloc, 0).unwrap();
    let views = CsuHeapSv::from_native(ComPtr::new(0x71), info()).unwrap();
    let rtvs = RtvHeap::from_native(ComPtr::new(0x73), info()).unwrap();
    let dsvs = DsvHeap::from_native(ComPtr::new(0x74), info()).unwrap();
    let samplers = SamplerHeapSv::from_native(ComPtr::new(0x72), info()).unwrap();
    let (with_heap, heaps) =
        recording.set_descriptor_heaps(Some(&views), Some(&rtvs), Some(&dsvs), Some(&samplers));
    assert_eq!(heaps, [0x71, 0x73, 0x74, 0x72]);
    assert_eq!(with_heap.ptr.as_ptr(), 0xc2);
    let (error, with_heap) = with_heap.reset(&alloc, -1).unwrap_err();
    assert_eq!(error.hr, -1);
    let recording = with_heap.reset(&alloc, 0).unwrap();
    let (_, heaps) = recording.set_descriptor_heaps(None, None, Some(&dsvs), None);
    assert_eq!(heaps, [0, 0, 0x74, 0]);
    let bundle = Bundle { ptr: ComPtr::new(0xc3) };
    let (error, bundle) = bundle.start(&alloc, -2).unwrap_err();
    assert_eq!((error.hr, bundle.ptr.as_ptr()), (-2, 0xc3));
    let closed = bundle.start(&alloc, 0).unwrap().close(0).unwrap();
    assert_eq!(closed.ptr.as_ptr(), 0xc3);
    assert!(Bundle { ptr: ComPtr::new(1) }.start(&alloc, 0).unwrap().close(-3).is_err());
}

#[test]
fn absent_objects_are_passed_as_zero() {
    let state = GraphicsPipelineState { ptr: ComPtr::new(0x99) };
    assert_eq!(state_address_of(Some(&state)), 0x99);
    assert_eq!(state_address_of::<GraphicsPipelineState>(None), 0);
    assert_eq!(heap_address_of::<RtvHeap>(None), 0);
    let rects = [Rect { left: 0, top: 0, right: 4, bottom: 4 }; 3];
    assert_eq!(rect_count_of(Some(&rects)), 3);
    assert_eq!(rect_count_of(Some(&[])), 0);
    assert_eq!(rect_count_of(None), 0);
}

#[test]
fn queue_and_device_descriptions() {
    assert_eq!(
        CommandQueueDesc::default(),
        CommandQueueDesc {
            list_type: CommandListType::Direct,
            priority: CommandQueuePriority { bits: 0 },
            flags: CommandQueueFlags { bits: 0 },
            node_mask: 0,
        }
    );
    assert_eq!(CommandQueuePriority::HIGH, 100);
    assert_eq!(CommandQueuePriority::GLOBAL_REALTIME, 1000);
    assert_eq!(CommandListType::Copy.bits(), 3);
    assert_eq!(CommandListType::default(), CommandListType::Direct);
    assert_eq!(DepthStencilClearFlags::default().bits, 3);
    assert_eq!(FeatureLevel::Level11_0.bits(), 0xb000);
    assert_eq!(FeatureLevel::Level12_1.bits(), 0xc100);
    assert_eq!(FeatureLevel::from_bits(0xb100), Some(FeatureLevel::Level11_1));
    assert_eq!(FeatureLevel::from_bits(0xb200), None);
    assert_eq!(FenceFlags::default().bits, 0);
    assert_eq!(FenceFlags::SHARED_CROSS_ADAPTER, 2);
}

#[test]
fn shader_version_packs_kind_and_numbers() {
    let v = Version::new(VersionType { bits: VersionType::VERTEX }, 5, 1);
    assert_eq!(v.into_bits(), 0x0001_0051);
    assert_eq!(v.get_type(), VersionType { bits: VersionType::VERTEX });
    assert_eq!(v.get_major(), 5);
    assert_eq!(v.get_minor(), 1);
    let v = Version::new(VersionType { bits: VersionType::COMPUTE }, 0x26, 0x37);
    assert_eq!(v.into_bits(), 0x0005_0067);
    assert_eq!((v.get_type().bits, v.get_major(), v.get_minor()), (5, 6, 7));
    let v = Version::from_bits(0xfffe_ffff);
    assert_eq!((v.get_type().bits, v.get_major(), v.get_minor()), (6, 15, 15));
    assert_eq!(Version::from_bits(0x0008_0000).get_type().bits, 0);
    assert_eq!(Version::new(VersionType { bits: 0 }, 0, 0).into_bits(), 0);
}

#[test]
fn shader_builder_ends_the_macros_only_while_it_builds() {
    let mut builder = ShaderBuilder::new(b"float4 main() {}", "main");
    assert_eq!(builder.flags.bits, ShaderCompileFlags::OPTIMIZATION_LEVEL0 | ShaderCompileFlags::WARNINGS_ARE_ERRORS);
    assert_eq!(builder.shader_macros.len(), 0);
    builder.shader_macros.push(ShaderMacro::new("A", "1"));
    builder.shader_macros.push(ShaderMacro::new("B", "2"));
    builder.begin_build();
    {
        let macros = builder.shader_macros.as_slice();
        assert_eq!(macros.len(), 3);
        assert_eq!((macros[0].get_name(), macros[0].get_definition()), (Some("A"), Some("1")));
        assert_eq!(macros[1], ShaderMacro::new("B", "2"));
        assert_eq!(macros[2], ShaderMacro::default());
        assert_eq!((macros[2].get_name(), macros[2].get_definition()), (None, None));
    }
    builder.end_build();
    assert_eq!(builder.shader_macros.as_slice(), &[ShaderMacro::new("A", "1"), ShaderMacro::new("B", "2")]);
    assert_eq!(builder.shader_macros.pop(), Some(ShaderMacro::new("B", "2")));
    assert_eq!(builder.shader_macros.pop(), Some(ShaderMacro::new("A", "1")));
    assert_eq!(builder.shader_macros.pop(), None);
    builder.end_build();
    assert_eq!(builder.shader_macros.len(), 0);
    assert_eq!(builder.entry_point, "main");
    assert_eq!(VS_TARGET, "vs_5_1");
    assert_eq!(ShaderCompileFlags::OPTIMIZATION_LEVEL2, 0xc000);
    assert_eq!(ShaderCompileFlags::ALL_RESOURCES_BOUND, 1 << 21);
}

#[test]
fn swap_chain_descriptions() {
    let desc = SwapChainDesc::new(28);
    assert_eq!((desc.width, desc.height, desc.format, desc.buffer_count), (0, 0, 28, 2));
    assert!(!desc.stereo.is_true());
    assert_eq!(desc.buffer_usage.bits, 0x20);
    assert_eq!((desc.scaling, desc.swap_effect, desc.alpha_mode), (Scaling::Stretch, SwapEffect::Discard, AlphaMode::Unspecified));
    assert_eq!(desc.flags.bits, 0);
    assert_eq!((desc.sample_desc.count, desc.sample_desc.quality), (1, 0));
    let resize = SwapChainResizeDesc::new(SwapChainFlags { bits: SwapChainFlags::ALLOW_TEARING });
    assert_eq!(
        resize,
        SwapChainResizeDesc { width: 0, height: 0, format: 0, buffer_count: 0, flags: SwapChainFlags { bits: 2048 } }
    );
    assert!(is_sync_interval(0) && is_sync_interval(4) && !is_sync_interval(5));
    assert_eq!(SwapEffect::FlipDiscard.bits(), 4);
    assert_eq!(SwapEffect::from_bits(2), None);
    assert_eq!(PresentFlags::ALLOW_TEARING, 0x200);
    assert_eq!(PresentFlags::default().bits, 0);
    assert_eq!(Scaling::AspectRatioStretch.bits(), 2);
    assert_eq!(AlphaMode::Ignore.bits(), 3);
}
