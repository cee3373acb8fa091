use redirect::comptr::ComPtr;
use redirect::format::{DXGI_FORMAT_D24_UNORM_S8_UINT, DXGI_FORMAT_R32G32B32_FLOAT, DXGI_FORMAT_UNKNOWN};
use redirect::list::MAX_LIST_LEN;
use redirect::pipeline::blend::{Blend, BlendDesc, BlendOp, ColorWriteMask, LogicOp, RenderTargetBlendDesc};
use redirect::pipeline::ds::{DepthStencilDesc, DepthWriteMask, StencilOp, StencilOpDesc};
use redirect::pipeline::ia::{
    stride_of, InputClassification, InputElementDesc, InputLayoutBuilder, PrimitiveTopology,
    PrimitiveTopologyType, StripCutValue, Vertex, APPEND_ALIGNED_ELEMENT,
};
use redirect::pipeline::rasterizer::{ConservativeMode, CullMode, FillMode, RasterizerDesc};
use redirect::pipeline::rootsig::{
    count_of, DescriptorRange, DescriptorRangeList, DescriptorRangeType, NativeRootParameter,
    NativeRootSignatureDesc, ParamTypeHelper, RootParam, RootParamType, RootSigBuilder,
    RootSigFlags, ShaderVisibility,
};
use redirect::pipeline::sampler::{
    BorderColor, Filter, StaticSamplerDesc, StaticSamplerList, TextureAddressMode,
};
use redirect::pipeline::so::{
    DeclarationEntry, DescBuilder, NativeStreamOutputDesc, StreamOutputBufferView, StrideList,
};
use redirect::pipeline::{ComparisonFunc, GraphicsPipelineStateBuilder, PipelineStateFlags, RootSig};
use redirect::resource::raw::GpuVAddress;
use redirect::swapchain::SampleDesc;

fn range(n: u32) -> DescriptorRange {
    DescriptorRange {
        range_type: DescriptorRangeType::Cbv,
        num_descriptors: n,
        base_shader_register: 0,
        register_space: 0,
        offset_from_table_start: 0,
    }
}

#[test]
fn descriptor_ranges_are_kept_in_order() {
    let mut ranges = DescriptorRangeList::new();
    assert_eq!(ranges.len(), 0);
    for n in 1..=6 {
        ranges.push(range(n));
    }
    assert_eq!(ranges.try_push(range(7)), None);
    assert_eq!(ranges.len(), 7);
    let counts: Vec<u32> = ranges.as_slice().iter().map(|r| r.num_descriptors).collect();
    assert_eq!(counts, vec![1, 2, 3, 4, 5, 6, 7]);
    assert_eq!(DescriptorRangeList::default().as_slice(), &[]);
    assert!(MAX_LIST_LEN > 7);
}

#[test]
fn root_parameters_are_laid_out_field_by_field() {
    let mut ranges = DescriptorRangeList::new();
    ranges.push(range(1));
    ranges.push(range(2));
    let table = RootParam {
        visibility: ShaderVisibility::Pixel,
        param_type: RootParamType::DescriptorTable { descriptor_ranges: ranges },
    };
    let none = ParamTypeHelper { shader_register: 0, register_space: 0, num_32bit_values: 0, pad: 0 };
    assert_eq!(
        table.to_native(),
        NativeRootParameter { parameter_type: 0, num_descriptor_ranges: 2, registers: none, shader_visibility: 5 }
    );
    let constant = RootParam {
        visibility: ShaderVisibility::All,
        param_type: RootParamType::Constant { shader_register: 1, register_space: 2, num_32bit_values: 3 },
    };
    assert_eq!(
        constant.to_native(),
        NativeRootParameter {
            parameter_type: 1,
            num_descriptor_ranges: 0,
            registers: ParamTypeHelper::new(1, 2, 3),
            shader_visibility: 0,
        }
    );
    let kinds = [
        (RootParamType::Cbv { shader_register: 4, register_space: 5 }, 2),
        (RootParamType::Srv { shader_register: 4, register_space: 5 }, 3),
        (RootParamType::Uav { shader_register: 4, register_space: 5 }, 4),
    ];
    for (param_type, number) in kinds {
        let native = RootParam { visibility: ShaderVisibility::Vertex, param_type }.to_native();
        assert_eq!(native.parameter_type, number);
        assert_eq!(native.registers, ParamTypeHelper { shader_register: 4, register_space: 5, num_32bit_values: 0, pad: 0 });
        assert_eq!(native.shader_visibility, 1);
    }
    assert_eq!(count_of(5), 5);
    assert_eq!(count_of(usize::MAX), u32::MAX);
}

#[test]
fn root_signature_is_serialized_in_the_order_of_the_builder() {
    let mut builder = RootSigBuilder::new();
    assert_eq!(builder.flags.bits, RootSigFlags::ALLOW_INPUT_ASSEMBLER_INPUT_LAYOUT);
    let (head, params) = builder.serialize();
    assert_eq!(head, NativeRootSignatureDesc { num_parameters: 0, num_static_samplers: 0, flags: 1 });
    assert!(params.is_empty());
    for register in 0..10 {
        builder.root_params.push(RootParam {
            visibility: ShaderVisibility::All,
            param_type: RootParamType::Cbv { shader_register: register, register_space: 0 },
        });
    }
    builder.static_samplers.push(StaticSamplerDesc::new(Filter { bits: Filter::ANISOTROPIC }, 0, 0));
    builder.flags = RootSigFlags { bits: 0x41 };
    let (head, params) = builder.serialize();
    assert_eq!(head, NativeRootSignatureDesc { num_parameters: 10, num_static_samplers: 1, flags: 0x41 });
    let registers: Vec<u32> = params.iter().map(|p| p.registers.shader_register).collect();
    assert_eq!(registers, (0..10).collect::<Vec<u32>>());
    assert!(params.iter().all(|p| p.parameter_type == 2));
    assert_eq!(RootSigBuilder::default().root_params.len(), 0);
}

#[test]
fn static_sampler_defaults() {
    let sampler = StaticSamplerDesc::new(Filter { bits: Filter::MIN_MAG_MIP_LINEAR }, 3, 1);
    assert_eq!(
        sampler,
        StaticSamplerDesc {
            filter: Filter { bits: 0x15 },
            address_u: TextureAddressMode::Wrap,
            address_v: TextureAddressMode::Wrap,
            address_w: TextureAddressMode::Wrap,
            mip_bias: 0.0f32.to_bits(),
            max_anisotropy: 1,
            comparison_func: ComparisonFunc::Always,
            border_color: BorderColor::TransparentBlack,
            min_lod: 0.0f32.to_bits(),
            max_lod: 1.0f32.to_bits(),
            shader_register: 3,
            register_space: 1,
        }
    );
    assert!(sampler.has_valid_anisotropy());
    assert!(!StaticSamplerDesc { max_anisotropy: 17, ..sampler }.has_valid_anisotropy());
    assert!(!StaticSamplerDesc { max_anisotropy: 0, ..sampler }.has_valid_anisotropy());
    assert!(Filter { bits: Filter::COMPARISON_ANISOTROPIC }.is_comparison());
    assert!(Filter { bits: Filter::COMPARISON_ANISOTROPIC }.is_anisotropic());
    assert!(!Filter { bits: Filter::MAXIMUM_MIN_MAG_MIP_POINT }.is_comparison());
    assert_eq!(Filter::MAXIMUM_ANISOTROPIC, 0x1d5);
    assert_eq!(Filter::MINIMUM_MIN_MAG_LINEAR_MIP_POINT, 0x114);
    assert_eq!(TextureAddressMode::MirrorOnce.bits(), 5);
    assert_eq!(BorderColor::OpaqueWhite.bits(), 2);
    let mut list = StaticSamplerList::new();
    list.push(sampler);
    list.push(StaticSamplerDesc { shader_register: 9, ..sampler });
    assert_eq!(list.as_slice()[1].shader_register, 9);
    assert_eq!(list.as_slice()[0], sampler);
}

#[test]
fn rasterizer_and_depth_defaults() {
    let r = RasterizerDesc::default();
    assert_eq!((r.fill, r.cull, r.conservative_raster), (FillMode::Solid, CullMode::Back, ConservativeMode::Off));
    assert!(r.front_ccw.is_true());
    assert!(!r.depth_clip.is_true() && !r.multisample.is_true() && !r.antialiased_line.is_true());
    assert_eq!((r.depth_bias, r.depth_bias_clamp, r.slope_scaled_depth_bias, r.forced_sample_count), (0, 0, 0, 0));
    assert_eq!(FillMode::Wireframe.bits(), 2);
    assert_eq!(CullMode::from_bits(1), Some(CullMode::Nothing));

    let d = DepthStencilDesc::default();
    assert!(d.depth.is_true() && !d.stencil.is_true());
    assert_eq!((d.depth_write_mask, d.depth_func), (DepthWriteMask::All, ComparisonFunc::Less));
    assert_eq!((d.stencil_read_mask, d.stencil_write_mask), (0xff, 0xff));
    let keep = StencilOpDesc {
        fail: StencilOp::Keep,
        depth_fail: StencilOp::Keep,
        pass: StencilOp::Keep,
        func: ComparisonFunc::Always,
    };
    assert_eq!(StencilOpDesc::default(), keep);
    assert_eq!((d.front_op, d.back_op), (keep, keep));
    assert_eq!(StencilOp::Decr.bits(), 8);
    assert_eq!(ComparisonFunc::from_bits(0), None);
    assert_eq!(ComparisonFunc::from_bits(8), Some(ComparisonFunc::Always));
}

#[test]
fn blend_state_is_plain_until_it_is_set() {
    let mut target = RenderTargetBlendDesc::new();
    assert_eq!(target, RenderTargetBlendDesc::default());
    assert!(!target.blend_enabled.is_true() && !target.logic_op_enabled.is_true());
    assert_eq!((target.src_blend, target.dst_blend, target.blend_op), (Blend::One, Blend::Zero, BlendOp::Add));
    assert_eq!((target.src_alpha, target.dst_alpha, target.blend_op_alpha), (Blend::One, Blend::Zero, BlendOp::Add));
    assert_eq!(target.logic_op, LogicOp::Noop);
    assert_eq!(target.write_mask.bits, 0xf);
    target.set_blend(Blend::SrcAlpha, Blend::InvSrcAlpha, BlendOp::Max);
    assert!(target.blend_enabled.is_true());
    assert_eq!((target.src_blend, target.dst_blend, target.blend_op), (Blend::SrcAlpha, Blend::InvSrcAlpha, BlendOp::Max));
    assert_eq!((target.src_alpha, target.dst_alpha, target.blend_op_alpha), (Blend::One, Blend::Zero, BlendOp::Add));
    let mut alpha = RenderTargetBlendDesc::new();
    alpha.set_blend_alpha(Blend::DestAlpha, Blend::Zero, BlendOp::Min);
    assert!(alpha.blend_enabled.is_true());
    assert_eq!((alpha.src_alpha, alpha.dst_alpha, alpha.blend_op_alpha), (Blend::DestAlpha, Blend::Zero, BlendOp::Min));
    assert_eq!((alpha.src_blend, alpha.dst_blend, alpha.blend_op), (Blend::One, Blend::Zero, BlendOp::Add));
    let all = BlendDesc::default();
    assert!(!all.alpha_to_coverage.is_true() && !all.independent_blend.is_true());
    assert!(all.render_targets.iter().all(|t| *t == RenderTargetBlendDesc::new()));
    assert_eq!(LogicOp::OrInverted.bits(), 15);
    assert_eq!(LogicOp::SetAll.bits(), 1);
    assert_eq!(Blend::InvSrc1Alpha.bits(), 19);
    assert_eq!(Blend::from_bits(12), None);
    assert_eq!(ColorWriteMask::ENABLE_ALL, 1 | 2 | 4 | 8);
}

#[test]
fn input_elements_follow_one_another() {
    let position = InputElementDesc::new("POSITION", DXGI_FORMAT_R32G32B32_FLOAT);
    assert_eq!(
        position,
        InputElementDesc {
            semantic_name: "POSITION",
            semantic_index: 0,
            format: 6,
            input_slot: 0,
            aligned_byte_offset: APPEND_ALIGNED_ELEMENT,
            input_slot_class: InputClassification::PerVertex,
            instance_data_step_rate: 0,
        }
    );
    let mut layout = InputLayoutBuilder::new();
    layout.elements.push(position);
    layout.elements.push(InputElementDesc::new("COLOR", 2));
    let names: Vec<&str> = layout.elements.as_slice().iter().map(|e| e.semantic_name).collect();
    assert_eq!(names, vec!["POSITION", "COLOR"]);
    assert_eq!(stride_of::<[f32; 7]>(), 28);
    assert_eq!(APPEND_ALIGNED_ELEMENT, u32::MAX);
}

#[test]
fn topologies_have_their_native_numbers() {
    assert_eq!(PrimitiveTopology::default().bits, 4);
    assert_eq!(PrimitiveTopology::control_point_patchlist(1), Some(PrimitiveTopology { bits: 33 }));
    assert_eq!(PrimitiveTopology::control_point_patchlist(32), Some(PrimitiveTopology { bits: 64 }));
    assert_eq!(PrimitiveTopology::control_point_patchlist(0), None);
    assert_eq!(PrimitiveTopology::control_point_patchlist(33), None);
    assert_eq!(PrimitiveTopology { bits: 48 }.control_points(), 16);
    assert_eq!(PrimitiveTopology { bits: 5 }.control_points(), 0);
    assert_eq!(PrimitiveTopology::from_bits(6), None);
    assert_eq!(PrimitiveTopology::from_bits(13), Some(PrimitiveTopology { bits: 13 }));
    assert_eq!(PrimitiveTopology::from_bits(65), None);
    assert_eq!(PrimitiveTopologyType::Patch.bits(), 4);
    assert_eq!(StripCutValue::default(), StripCutValue::Disabled);
    assert_eq!(StripCutValue::Ffffffff.bits(), 2);
}

#[test]
fn stream_output_counts_its_entries_and_strides() {
    let mut builder = DescBuilder::new(2);
    assert_eq!(builder.build(), NativeStreamOutputDesc { num_entries: 0, num_strides: 0, rasterized_stream: 2 });
    let entry = DeclarationEntry {
        stream: 0,
        semantic_name: "POSITION",
        semantic_index: 0,
        start_component: 0,
        component_count: 4,
        output_slot: 0,
    };
    assert!(entry.is_valid());
    assert!(!DeclarationEntry { start_component: 1, ..entry }.is_valid());
    assert!(!DeclarationEntry { component_count: 0, ..entry }.is_valid());
    assert!(!DeclarationEntry { output_slot: 4, ..entry }.is_valid());
    assert!(DeclarationEntry { start_component: 3, component_count: 1, ..entry }.is_valid());
    builder.entries.push(entry);
    builder.entries.push(DeclarationEntry { semantic_name: "NORMAL", ..entry });
    builder.strides.push(16);
    builder.strides.push(32);
    builder.strides.push(48);
    assert_eq!(builder.build(), NativeStreamOutputDesc { num_entries: 2, num_strides: 3, rasterized_stream: 2 });
    assert_eq!(builder.strides.as_slice(), &[16, 32, 48]);
    assert_eq!(builder.entries.as_slice()[1].semantic_name, "NORMAL");
    let mut strides = StrideList::new();
    for i in 0..20 {
        strides.push(i);
    }
    assert_eq!(strides.as_slice(), (0..20).collect::<Vec<u32>>().as_slice());
    assert_eq!(DescBuilder::default().rasterized_stream, 0);
    let view = StreamOutputBufferView::new(GpuVAddress { ptr: 0x10 }, 64, 8);
    assert_eq!(view, StreamOutputBufferView { loc: GpuVAddress { ptr: 0x10 }, size: 64, filled_size: 8 });
    assert_eq!(StreamOutputBufferView::default().size, 0);
}

#[test]
fn pipeline_builder_starts_from_the_defaults() {
    let rootsig = RootSig { ptr: ComPtr::new(0x11) };
    let builder = GraphicsPipelineStateBuilder::new(&rootsig);
    assert_eq!(builder.rootsig.ptr.as_ptr(), 0x11);
    assert!(builder.vs.is_none() && builder.ps.is_none() && builder.ds.is_none());
    assert!(builder.hs.is_none() && builder.gs.is_none() && builder.cache.is_none());
    assert_eq!(builder.sample_mask, 0);
    assert_eq!(builder.primitive_topology_type, PrimitiveTopologyType::Triangle);
    assert_eq!(builder.strip_cut_value, StripCutValue::Disabled);
    assert_eq!(builder.num_render_targets, 1);
    assert_eq!(builder.rtv_formats, [DXGI_FORMAT_UNKNOWN; 8]);
    assert_eq!(builder.dsv_format, DXGI_FORMAT_D24_UNORM_S8_UINT);
    assert_eq!(builder.sample_desc, SampleDesc { count: 1, quality: 0 });
    assert_eq!(builder.node_mask, 0);
    assert_eq!(builder.flags.bits, PipelineStateFlags::NONE);
    assert_eq!(builder.rasterizer_state, RasterizerDesc::default());
    assert_eq!(builder.depth_stencil_state, DepthStencilDesc::default());
    assert_eq!(builder.blend_state, BlendDesc::default());
    assert_eq!(builder.num_input_elements(), 0);
    assert_eq!(builder.stream_output.entries.len(), 0);
}

struct Colored {
    _position: [f32; 3],
    _color: [f32; 4],
}

impl Vertex for Colored {
    fn get_input_layout(&self) -> InputLayoutBuilder {
        let mut layout = InputLayoutBuilder::new();
        layout.elements.push(InputElementDesc::new("POSITION", 6));
        layout.elements.push(InputElementDesc::new("COLOR", 2));
        layout
    }
}

#[test]
fn vertex_stride_is_the_size_of_the_vertex() {
    let v = Colored { _position: [0.0; 3], _color: [0.0; 4] };
    assert_eq!(v.get_stride(), 28);
    assert_eq!(v.get_input_layout().elements.len(), 2);
}
