use std::sync::Arc;

use fluxel_gl::api::command::{IndexFormat, PortableCommand};
use fluxel_gl::api::error::{RhiDetail, RhiErrorKind};
use fluxel_gl::api::format::{
    block_extent, logical_bytes_per_block, GlAstcBlock, GlCompressedColorSpace, GlFormat,
    TextureAspects, TextureFormat,
};
use fluxel_gl::api::gl::{
    GlAddressMode, GlBlendFactor, GlBlendOperation, GlCullMode, GlDepthCompareFunction,
    GlExtent3d, GlFilterMode, GlFrontFace, GlIndexFormat, GlMipmapFilterMode, GlPrimitiveTopology,
    GlShaderDialect, GlShaderStage, GlStencilOperation, GlTextureDesc, GlTextureDimension,
    GlTextureUsage, GlVertexFormat, GlVertexStepMode, GlViewport,
};
use fluxel_gl::api::pipeline::{
    BlendComponent, BlendFactor, BlendOperation, BlendState, ColorTargetState, ColorWriteMask,
    CullMode, DepthState, DepthStencilState, FrontFace, MultisampleState, PolygonMode,
    PrimitiveState, PrimitiveTopology, RasterPipelineDescriptor, StencilFaceState,
    StencilOperation, StencilState, VertexAttribute, VertexBufferLayout, VertexFormat,
    VertexStepMode,
};
use fluxel_gl::api::resource::{
    AddressMode, BufferDescriptor, BufferUsage, CompareFunction, Extent3d, FilterMode, Origin3d,
    SamplerDescriptor, TexelLayout, Texture, TextureAspect, TextureDescriptor,
    TextureSubresourceLayers, TextureUploadDescriptor, TextureUsage, TextureViewDescriptor,
    TextureViewDimension,
};
use fluxel_gl::api::shader::{
    AbiVersion, PipelineInterface, ResourceLocation, ShaderArtifact, ShaderCode, ShaderModule,
    ShaderStage,
};
use fluxel_gl::platform::object::GlObjectName;
use fluxel_gl::translate::{
    buffer_descriptor, index_format, is_compressed_texture_format, pipeline_layout_from_artifacts,
    preflight_portable_command, sampler_descriptor, shader_source, shader_stage,
    texture_descriptor, texture_format, validate_compressed_texture_upload, vertex_format,
    view_dimension, whole_compatible_virtual_view,
};
use fluxel_gl::translate_raster::{
    blend_factor, blend_operation, blend_state, color_mask, compare, cull_mode,
    depth_stencil_state, front_face, raster_pipeline_packet, step_mode, stencil_op, topology,
};

#[test]
fn compressed_formats_keep_exact_family_and_srgb() {
    assert_eq!(
        texture_format(TextureFormat::Bc7RgbaUnormSrgb).unwrap(),
        GlFormat::Bc7RgbaSrgb
    );
    assert_eq!(
        texture_format(TextureFormat::Astc10x6UnormSrgb).unwrap(),
        GlFormat::Astc {
            block: GlAstcBlock::B10x6,
            color_space: GlCompressedColorSpace::Srgb
        }
    );
    assert_eq!(
        texture_format(TextureFormat::Etc2Rgba8Unorm).unwrap(),
        GlFormat::Etc2Rgba8Unorm
    );
    assert_eq!(
        texture_format(TextureFormat::Astc6x6Hdr).unwrap(),
        GlFormat::Astc {
            block: GlAstcBlock::B6x6,
            color_space: GlCompressedColorSpace::Hdr
        }
    );
}

#[test]
fn ordinary_gl_sized_formats_are_not_rejected_by_a_stale_typed_enum() {
    for format in [
        TextureFormat::R8Unorm,
        TextureFormat::Rg16Float,
        TextureFormat::Rgba32Sint,
        TextureFormat::Rgb10a2Unorm,
        TextureFormat::Depth32FloatStencil8,
    ] {
        assert!(texture_format(format).is_ok(), "{format:?}");
    }
    assert_eq!(
        texture_format(TextureFormat::Nv12).unwrap_err().kind(),
        RhiErrorKind::Unsupported
    );
}

fn sampled() -> TextureUsage {
    TextureUsage { sampled: true, ..TextureUsage::none() }
}

#[test]
fn array_texture_is_not_mistaken_for_plain_2d() {
    let desc = TextureDescriptor::new_2d(4, 4, TextureFormat::Rgba8Unorm, sampled())
        .with_array_layers(2);
    assert_eq!(
        texture_descriptor(&desc).unwrap().dimension,
        GlTextureDimension::D2Array
    );
}

#[test]
fn acceleration_structure_usage_is_not_silently_dropped() {
    let desc = BufferDescriptor::new(64, BufferUsage { blas_input: true, ..BufferUsage::none() });
    assert_eq!(
        buffer_descriptor(&desc).unwrap_err().kind(),
        RhiErrorKind::Unsupported
    );
}

fn virtual_view_base() -> GlTextureDesc {
    GlTextureDesc {
        dimension: GlTextureDimension::D2,
        extent: GlExtent3d { width: 8, height: 8, depth_or_layers: 1 },
        mip_level_count: 3,
        sample_count: 1,
        format: texture_format(TextureFormat::Rgba8Unorm).unwrap(),
        usage: GlTextureUsage { sampled: true, ..GlTextureUsage::none() },
    }
}

#[test]
fn virtual_view_accepts_only_the_exact_whole_base_shape() {
    let view =
        TextureViewDescriptor::new(TextureViewDimension::D2, TextureAspects::color(), 0, 3, 0, 1);
    assert_eq!(
        whole_compatible_virtual_view(&view, TextureFormat::Rgba8Unorm, virtual_view_base())
            .unwrap(),
        GlTextureDimension::D2
    );
}

#[test]
fn virtual_view_refuses_partial_mips_reinterpretation_and_dimension_changes() {
    let partial =
        TextureViewDescriptor::new(TextureViewDimension::D2, TextureAspects::color(), 1, 1, 0, 1);
    assert_eq!(
        whole_compatible_virtual_view(&partial, TextureFormat::Rgba8Unorm, virtual_view_base())
            .unwrap_err()
            .kind(),
        RhiErrorKind::Unsupported
    );
    let reinterpreted =
        TextureViewDescriptor::new(TextureViewDimension::D2, TextureAspects::color(), 0, 3, 0, 1)
            .with_format(TextureFormat::Rgba8UnormSrgb);
    assert_eq!(
        whole_compatible_virtual_view(
            &reinterpreted,
            TextureFormat::Rgba8Unorm,
            virtual_view_base()
        )
        .unwrap_err()
        .kind(),
        RhiErrorKind::Unsupported
    );
}

#[test]
fn color_write_mask_preserves_each_channel() {
    let mask = ColorWriteMask { red: true, blue: true, ..ColorWriteMask::none() };
    assert_eq!(color_mask(mask), 0b0101);
    assert_eq!(color_mask(ColorWriteMask::none()), 0);
}

#[test]
fn dual_source_blending_is_never_silently_rewritten() {
    assert_eq!(
        blend_factor(BlendFactor::Src1).unwrap_err().kind(),
        RhiErrorKind::Unsupported
    );
}

#[test]
fn stencil_operation_and_comparison_are_lossless() {
    assert_eq!(
        stencil_op(StencilOperation::IncrementWrap),
        GlStencilOperation::IncrementWrap
    );
    assert_eq!(
        compare(CompareFunction::GreaterEqual),
        GlDepthCompareFunction::GreaterEqual
    );
}

#[test]
fn a_refused_format_is_named() {
    let error = texture_format(TextureFormat::Nv12).unwrap_err();
    assert!(matches!(error.detail, RhiDetail::TextureFormat(TextureFormat::Nv12)));
    let error = vertex_format(VertexFormat::Unorm10_10_10_2).unwrap_err();
    assert_eq!(error.kind(), RhiErrorKind::Unsupported);
    assert!(matches!(error.detail, RhiDetail::VertexFormat(VertexFormat::Unorm10_10_10_2)));
    let error = vertex_format(VertexFormat::Unorm8x4Bgra).unwrap_err();
    assert_eq!(error.kind(), RhiErrorKind::Unsupported);
    assert!(matches!(error.detail, RhiDetail::VertexFormat(VertexFormat::Unorm8x4Bgra)));
    assert_eq!(vertex_format(VertexFormat::Unorm8x4).unwrap(), GlVertexFormat::Unorm8x4);
}

#[test]
fn plain_words_are_translated_one_to_one() {
    assert_eq!(topology(PrimitiveTopology::LineStrip), GlPrimitiveTopology::LineStrip);
    assert_eq!(cull_mode(CullMode::Back), GlCullMode::Back);
    assert_eq!(front_face(FrontFace::Cw), GlFrontFace::Clockwise);
    assert_eq!(step_mode(VertexStepMode::Instance), GlVertexStepMode::Instance);
    assert_eq!(index_format(IndexFormat::Uint32), GlIndexFormat::Uint32);
    assert_eq!(vertex_format(VertexFormat::Float32x3).unwrap(), GlVertexFormat::Float32x3);
    assert_eq!(blend_operation(BlendOperation::ReverseSubtract), GlBlendOperation::ReverseSubtract);
    assert_eq!(
        blend_factor(BlendFactor::OneMinusDstAlpha).unwrap(),
        GlBlendFactor::OneMinusDstAlpha
    );
    assert_eq!(shader_stage(ShaderStage::Compute).unwrap(), GlShaderStage::Compute);
    assert_eq!(shader_stage(ShaderStage::Mesh).unwrap_err().kind(), RhiErrorKind::Unsupported);
    assert_eq!(view_dimension(TextureViewDimension::Cube).unwrap(), GlTextureDimension::Cube);
    assert!(view_dimension(TextureViewDimension::CubeArray).is_err());
}

#[test]
fn a_buffer_keeps_its_size_and_uses() {
    let usage = BufferUsage { vertex: true, copy_dst: true, ..BufferUsage::none() };
    let desc = buffer_descriptor(&BufferDescriptor::new(256, usage)).unwrap();
    assert_eq!(desc.size, 256);
    assert!(desc.usage.vertex && desc.usage.copy_destination);
    assert!(!desc.usage.uniform && !desc.usage.copy_source);
}

#[test]
fn blocks_have_their_documented_sizes() {
    assert_eq!(block_extent(TextureFormat::Astc10x6Unorm), (10, 6));
    assert_eq!(block_extent(TextureFormat::Bc1RgbaUnorm), (4, 4));
    assert_eq!(logical_bytes_per_block(TextureFormat::Bc1RgbaUnorm), Some(8));
    assert_eq!(logical_bytes_per_block(TextureFormat::Astc4x4Unorm), Some(16));
    assert_eq!(logical_bytes_per_block(TextureFormat::Rgba32Float), Some(16));
    assert!(is_compressed_texture_format(TextureFormat::EacR11Unorm));
    assert!(!is_compressed_texture_format(TextureFormat::R8Unorm));
}

fn block_upload(width: u32, bytes_per_row: u32, length: usize) -> TextureUploadDescriptor {
    TextureUploadDescriptor {
        dst: Texture {
            descriptor: TextureDescriptor::new_2d(8, 8, TextureFormat::Bc1RgbaUnorm, sampled()),
            native: Some(GlObjectName::new(4, "upload test").unwrap()),
        },
        subresource: TextureSubresourceLayers {
            aspect: TextureAspect::Color,
            mip_level: 0,
            base_layer: 0,
            layer_count: 1,
        },
        origin: Origin3d { x: 0, y: 0, z: 0 },
        extent: Extent3d { width, height: 8, depth: 1 },
        source_layout: TexelLayout { bytes_per_row, rows_per_image: 2 },
        bytes: Arc::new(vec![0; length]),
    }
}

#[test]
fn a_compressed_upload_consists_of_whole_blocks() {
    assert!(validate_compressed_texture_upload(&block_upload(8, 16, 32), "upload").is_ok());
    assert!(validate_compressed_texture_upload(&block_upload(6, 16, 32), "upload").is_err());
    assert!(validate_compressed_texture_upload(&block_upload(8, 16, 31), "upload").is_err());
}

#[test]
fn a_sampler_keeps_its_modes() {
    let desc = SamplerDescriptor {
        address_u: AddressMode::Repeat,
        address_v: AddressMode::MirrorRepeat,
        address_w: AddressMode::ClampToEdge,
        mag_filter: FilterMode::Linear,
        min_filter: FilterMode::Nearest,
        mip_filter: FilterMode::Linear,
        lod_min_bits: 0.0f32.to_bits(),
        lod_max_bits: 4.5f32.to_bits(),
        compare: None,
        max_anisotropy: 1,
    };
    let sampler = sampler_descriptor(&desc).unwrap();
    assert_eq!(sampler.address_mode_u, GlAddressMode::Repeat);
    assert_eq!(sampler.address_mode_v, GlAddressMode::MirroredRepeat);
    assert_eq!(sampler.mag_filter, GlFilterMode::Linear);
    assert_eq!(sampler.mipmap_filter, GlMipmapFilterMode::Linear);
    assert_eq!(sampler.lod_max_bits, 4.5f32.to_bits());
    let border = SamplerDescriptor { address_u: AddressMode::ClampToBorder, ..desc };
    assert!(sampler_descriptor(&border).is_err());
}

fn artifact(stage: ShaderStage, resources: Vec<ResourceLocation>) -> Arc<ShaderArtifact> {
    Arc::new(ShaderArtifact {
        stage,
        code: ShaderCode::GlslEs { version: 310, source: Arc::new("void main() {}".to_owned()) },
        entry_point: Arc::new("main".to_owned()),
        content_hash: 77,
        abi_version: AbiVersion { major: 1, minor: 0 },
        resources,
    })
}

#[test]
fn a_shader_keeps_its_text() {
    let source = shader_source(&artifact(ShaderStage::Fragment, vec![])).unwrap();
    assert_eq!(source.stage, GlShaderStage::Fragment);
    assert_eq!(source.dialect, GlShaderDialect::Embedded { version: 310 });
    assert_eq!(*source.text, "void main() {}");
    assert_eq!(source.source_hash, 77);
}

#[test]
fn a_shader_of_another_interface_is_refused() {
    let foreign = ShaderArtifact {
        stage: ShaderStage::Vertex,
        code: ShaderCode::Other,
        entry_point: Arc::new("main".to_owned()),
        content_hash: 0,
        abi_version: AbiVersion { major: 2, minor: 0 },
        resources: vec![],
    };
    assert!(shader_source(&foreign).is_err());
}

#[test]
fn shader_resources_are_refused() {
    let here = ResourceLocation { group: 0, slot: 1 };
    let there = ResourceLocation { group: 2, slot: 0 };
    let declared = PipelineInterface { declared: vec![here] };
    let known = vec![artifact(ShaderStage::Vertex, vec![here])];
    let unknown = vec![artifact(ShaderStage::Vertex, vec![there])];
    let unnamed = pipeline_layout_from_artifacts(&declared, &known).unwrap_err();
    let undeclared = pipeline_layout_from_artifacts(&declared, &unknown).unwrap_err();
    assert!(matches!(
        unnamed.detail,
        RhiDetail::ShaderResource { location, .. } if location == here
    ));
    assert!(matches!(
        undeclared.detail,
        RhiDetail::ShaderResource { location, .. } if location == there
    ));
    let plain = vec![artifact(ShaderStage::Vertex, vec![])];
    assert!(pipeline_layout_from_artifacts(&declared, &plain).unwrap().bindings.is_empty());
}

#[test]
fn commands_without_a_route_are_refused() {
    assert!(preflight_portable_command(&PortableCommand::Draw).is_ok());
    assert_eq!(
        preflight_portable_command(&PortableCommand::TraceRays).unwrap_err().kind(),
        RhiErrorKind::Unsupported
    );
    assert!(preflight_portable_command(&PortableCommand::DispatchMesh).is_err());
}

#[test]
fn blending_is_translated_whole_or_not_at_all() {
    let plain = BlendComponent {
        src_factor: BlendFactor::SrcAlpha,
        dst_factor: BlendFactor::OneMinusSrcAlpha,
        operation: BlendOperation::Add,
    };
    let dual = BlendComponent { src_factor: BlendFactor::Src1Alpha, ..plain };
    let state = blend_state(BlendState { color: plain, alpha: plain }).unwrap();
    assert_eq!(state.color.src_factor, GlBlendFactor::SrcAlpha);
    assert_eq!(state.alpha.dst_factor, GlBlendFactor::OneMinusSrcAlpha);
    assert!(blend_state(BlendState { color: plain, alpha: dual }).is_err());
}

#[test]
fn stencil_faces_keep_their_masks() {
    let front = StencilFaceState {
        pass_op: StencilOperation::Replace,
        ..StencilFaceState::new(CompareFunction::Equal)
    };
    let back = StencilFaceState::new(CompareFunction::Always);
    let stencil = StencilState { read_mask: 0xF0, write_mask: 0x0F, ..StencilState::new(front, back) };
    let state = depth_stencil_state(&DepthStencilState {
        format: TextureFormat::Depth24PlusStencil8,
        depth: Some(DepthState::new(CompareFunction::Less)),
        stencil: Some(stencil),
    })
    .unwrap();
    assert_eq!(state.depth_compare, GlDepthCompareFunction::Less);
    assert_eq!(state.stencil_front.pass_op, GlStencilOperation::Replace);
    assert_eq!(state.stencil_front.read_mask, 0xF0);
    assert_eq!(state.stencil_back.write_mask, 0x0F);
    assert_eq!(state.stencil_back.compare, GlDepthCompareFunction::Always);
}

fn pipeline(polygon_mode: PolygonMode) -> RasterPipelineDescriptor {
    RasterPipelineDescriptor {
        label: None,
        vertex: ShaderModule { artifact: artifact(ShaderStage::Vertex, vec![]), native: None },
        fragment: Some(ShaderModule {
            artifact: artifact(ShaderStage::Fragment, vec![]),
            native: None,
        }),
        interface: PipelineInterface { declared: vec![] },
        vertex_buffers: vec![VertexBufferLayout {
            stride: 12,
            step_mode: VertexStepMode::Vertex,
            attributes: vec![VertexAttribute {
                location: 0,
                format: VertexFormat::Float32x3,
                offset: 0,
            }],
        }],
        primitive: PrimitiveState {
            topology: PrimitiveTopology::TriangleList,
            cull_mode: CullMode::Back,
            front_face: FrontFace::Ccw,
            polygon_mode,
            unclipped_depth: false,
            conservative: false,
        },
        color_targets: vec![Some(ColorTargetState {
            write_mask: ColorWriteMask { red: true, green: true, blue: true, alpha: true },
            blend: None,
        })],
        depth_stencil: None,
        multisample: MultisampleState { count: 1, mask: 0xFFFF_FFFF, alpha_to_coverage_enabled: false },
    }
}

#[test]
fn a_pipeline_is_translated_with_its_layout() {
    let viewport = GlViewport { x: 0, y: 0, width: 0, height: 0, min_depth: 0, max_depth: 0 };
    let packet = raster_pipeline_packet(&pipeline(PolygonMode::Fill), viewport).unwrap();
    assert_eq!(packet.state.topology, GlPrimitiveTopology::Triangles);
    assert_eq!(packet.state.cull_mode, GlCullMode::Back);
    assert_eq!(packet.state.color_targets[0].write_mask, 0b1111);
    assert_eq!(packet.vertex_layout.buffers[0].stride, 12);
    assert_eq!(packet.vertex_layout.attributes[0].format, GlVertexFormat::Float32x3);
    assert!(raster_pipeline_packet(&pipeline(PolygonMode::Line), viewport).is_err());
}

#[test]
fn formats_and_tests_stay_apart() {
    let formats = [
        TextureFormat::Rgba8Unorm,
        TextureFormat::Rgba8UnormSrgb,
        TextureFormat::Bc1RgbaUnorm,
        TextureFormat::Astc4x4Unorm,
        TextureFormat::Astc4x4UnormSrgb,
        TextureFormat::Depth32Float,
    ];
    for (at, left) in formats.iter().enumerate() {
        for right in &formats[at + 1..] {
            assert_ne!(texture_format(*left).unwrap(), texture_format(*right).unwrap());
        }
    }
    assert_ne!(
        vertex_format(VertexFormat::Uint16x2).unwrap(),
        vertex_format(VertexFormat::Sint16x2).unwrap()
    );
    assert_ne!(compare(CompareFunction::Less), compare(CompareFunction::LessEqual));
}
