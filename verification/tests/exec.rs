use std::cell::RefCell;
use std::rc::Rc;
use std::sync::Arc;

use fluxel_gl::api::discovery::{GlFormatTable, GlLimits};
use fluxel_gl::api::error::{GlContextLifecycle, GlError, Message};
use fluxel_gl::api::format::GlFormat;
use fluxel_gl::api::gl::{
    GlAttachmentTarget, GlBlendFactor, GlBlendOperation, GlBufferDesc, GlBufferUsage,
    GlColorAttachment, GlColorBits, GlColorTargetState, GlCullMode, GlDepthCompareFunction,
    GlDrawCommand, GlExtent3d, GlFamilyProfile, GlFilterMode, GlFramebufferDescriptor,
    GlFrontFace, GlIndexBinding, GlIndexFormat, GlIndexedDraw, GlLoadOp, GlMultisampleState,
    GlNonIndexedDraw, GlPassAttachmentView, GlPrimitiveTopology, GlRasterPipeline, GlRasterState,
    GlRenderPassDescriptor, GlRenderTarget, GlStencilOperation, GlStoreOp, GlTextureDesc,
    GlTextureDimension, GlTextureUsage, GlTextureView, GlVertexAttribute, GlVertexBufferBinding,
    GlVertexBufferLayout, GlVertexFormat, GlVertexLayout, GlVertexStepMode, GlViewport,
};
use fluxel_gl::api::identity::{
    BufferId, ContextEpoch, ContextStamp, DeviceIdentity, FramebufferId, ProgramId, SamplerId,
    TextureId,
};
use fluxel_gl::native::call::{GlCall, GlCalls};
use fluxel_gl::native::exec_framebuffer::{
    blit_mask_bits, draw_buffer_constant, framebuffer_shape, supports_framebuffer_invalidate,
    GlBlitMask,
};
use fluxel_gl::native::exec_raster::{
    blend_factor, blend_operation, compare_function, stencil_operation, topology_mode, GlMultiDraw,
};
use fluxel_gl::native::exec_vertex::{
    attribute_byte_size, attribute_path, index_size, indexed_draw_offset, indexed_draw_span,
    validate_layout, AttributePath,
};
use fluxel_gl::native::formats::rgba8_texture_facts;
use fluxel_gl::native::gl_const;
use fluxel_gl::native::link::{NativeCommand, NativeObject};
use fluxel_gl::native::provider::{NativeBuffer, NativeGlProvider, NativeProgram, NativeTexture};
use fluxel_gl::state::context::RasterPipelineDiff;

struct Gl {
    calls: Rc<RefCell<Vec<String>>>,
    status: u32,
    errors: Vec<u32>,
}

impl GlCalls for Gl {
    fn call(&mut self, call: GlCall) {
        self.calls.borrow_mut().push(format!("{call:?}"));
    }

    fn draw_buffers(&mut self, buffers: &Vec<u32>) {
        self.calls.borrow_mut().push(format!("DrawBuffers {buffers:?}"));
    }

    fn invalidate_framebuffer(&mut self, _: u32, attachments: &Vec<u32>) {
        self.calls.borrow_mut().push(format!("Invalidate {attachments:?}"));
    }

    fn create_framebuffer(&mut self) -> Result<u32, Message> {
        Ok(71)
    }

    fn create_vertex_array(&mut self) -> Result<u32, Message> {
        Ok(61)
    }

    fn check_framebuffer_status(&mut self, _: u32) -> u32 {
        self.status
    }

    fn get_error(&mut self) -> u32 {
        self.errors.pop().unwrap_or(gl_const::NO_ERROR)
    }
}

fn stamp() -> ContextStamp {
    ContextStamp::new(DeviceIdentity::new(1).unwrap(), ContextEpoch::initial())
}

fn limits() -> GlLimits {
    GlLimits {
        max_texture_size: 4096,
        max_3d_texture_size: 256,
        max_array_texture_layers: 256,
        max_cube_map_texture_size: 4096,
        max_renderbuffer_size: 4096,
        max_color_attachments: 4,
        max_draw_buffers: 4,
        max_vertex_attributes: 16,
        max_viewport_dimensions: (4096, 4096),
        max_viewports: 1,
        max_vertex_texture_image_units: 16,
        max_fragment_texture_image_units: 16,
        max_combined_texture_image_units: 32,
        max_uniform_buffer_bindings: 24,
        max_uniform_block_size: 16384,
        uniform_buffer_offset_alignment: 256,
        max_vertex_uniform_blocks: 12,
        max_fragment_uniform_blocks: 12,
        max_compute_uniform_blocks: 0,
        max_combined_uniform_blocks: 24,
        max_storage_buffer_bindings: 0,
        max_storage_block_size: 0,
        storage_buffer_offset_alignment: 0,
        max_vertex_storage_blocks: 0,
        max_fragment_storage_blocks: 0,
        max_compute_storage_blocks: 0,
        max_combined_storage_blocks: 0,
        max_image_units: 0,
        max_combined_image_units: 0,
        max_samples: 4,
        max_color_texture_samples: 4,
        max_depth_texture_samples: 4,
        max_integer_samples: 1,
        max_compute_work_group_count: (0, 0, 0),
        max_compute_work_group_size: (0, 0, 0),
        max_compute_work_group_invocations: 0,
        max_multi_draw_indirect_count: None,
        max_multiview_view_count: 0,
        query_counter_bits: 0,
        max_texture_anisotropy: None,
    }
}

fn texture() -> TextureId {
    TextureId::new(stamp(), 1, 0)
}

fn program() -> ProgramId {
    ProgramId::new(stamp(), 2, 0)
}

fn buffer() -> BufferId {
    BufferId::new(stamp(), 3, 0)
}

fn provider(gl: Gl) -> NativeGlProvider<Gl> {
    let mut formats = GlFormatTable::new();
    formats.record(rgba8_texture_facts()).unwrap();
    let profile = GlFamilyProfile::Embedded { major: 3, minor: 0 };
    let mut provider = NativeGlProvider::new(gl, stamp(), profile, limits(), formats);
    provider.textures.insert(
        1,
        NativeTexture {
            generation: 0,
            raw: 41,
            desc: GlTextureDesc {
                dimension: GlTextureDimension::D2,
                extent: GlExtent3d { width: 8, height: 4, depth_or_layers: 1 },
                mip_level_count: 1,
                sample_count: 1,
                format: GlFormat::Rgba8Unorm,
                usage: GlTextureUsage { render_attachment: true, ..GlTextureUsage::none() },
            },
        },
    );
    provider.programs.insert(2, NativeProgram { generation: 0, raw: 42 });
    provider.buffers.insert(
        3,
        NativeBuffer {
            generation: 0,
            raw: 43,
            desc: GlBufferDesc {
                size: 64,
                usage: GlBufferUsage { vertex: true, index: true, ..GlBufferUsage::none() },
            },
        },
    );
    provider
}

fn gl(calls: &Rc<RefCell<Vec<String>>>) -> Gl {
    Gl { calls: calls.clone(), status: gl_const::FRAMEBUFFER_COMPLETE, errors: vec![] }
}

fn view() -> GlTextureView {
    GlTextureView {
        target: GlAttachmentTarget::Texture(texture()),
        format: GlFormat::Rgba8Unorm,
        mip_level: 0,
        array_layer: 0,
        layer_count: 1,
        width: 8,
        height: 4,
        sample_count: 1,
    }
}

fn framebuffer() -> GlFramebufferDescriptor {
    GlFramebufferDescriptor {
        color_attachments: vec![view()],
        depth_stencil_attachment: None,
        draw_buffers: vec![0],
    }
}

fn pass(target: FramebufferId, store: GlStoreOp) -> GlRenderPassDescriptor {
    GlRenderPassDescriptor {
        target: GlRenderTarget::Offscreen(target),
        color_attachments: vec![GlColorAttachment {
            view: GlPassAttachmentView::Allocated(view()),
            resolve_target: None,
            load: GlLoadOp::Clear,
            store,
            clear: GlColorBits { red: 0, green: 0, blue: 0, alpha: 1.0f32.to_bits() },
        }],
        depth_stencil_attachment: None,
    }
}

fn layout() -> GlVertexLayout {
    GlVertexLayout {
        buffers: vec![GlVertexBufferLayout {
            slot: 0,
            stride: 12,
            step_mode: GlVertexStepMode::Vertex,
        }],
        attributes: vec![GlVertexAttribute {
            location: 0,
            buffer_slot: 0,
            format: GlVertexFormat::Float32x3,
            offset: 0,
        }],
    }
}

fn state() -> GlRasterState {
    GlRasterState {
        topology: GlPrimitiveTopology::Triangles,
        cull_mode: GlCullMode::Back,
        front_face: GlFrontFace::CounterClockwise,
        depth_stencil: None,
        color_targets: Arc::new(vec![GlColorTargetState { write_mask: 0b1111, blend: None }]),
        multisample: GlMultisampleState {
            sample_count: 1,
            alpha_to_coverage_enabled: false,
            sample_mask: u32::MAX,
        },
        viewport: GlViewport {
            x: 0,
            y: 0,
            width: 8,
            height: 4,
            min_depth: 0.0f32.to_bits(),
            max_depth: 1.0f32.to_bits(),
        },
        scissor: None,
        blend_constant: GlColorBits { red: 0, green: 0, blue: 0, alpha: 0 },
    }
}

fn position(calls: &[String], what: &str) -> usize {
    match calls.iter().position(|call| call.contains(what)) {
        Some(at) => at,
        None => panic!("{what} is not among {calls:?}"),
    }
}

#[test]
fn a_pass_draws_what_it_is_told() {
    let calls = Rc::new(RefCell::new(vec![]));
    let mut provider = provider(gl(&calls));
    let target = provider.create_framebuffer(&framebuffer()).unwrap();
    let array = provider.create_vertex_array(&layout()).unwrap();
    provider.begin_render_pass(&pass(target, GlStoreOp::Store)).unwrap();
    let pipeline = GlRasterPipeline { program: program(), vertex_array: array, state: state() };
    provider.set_raster_pipeline(&pipeline).unwrap();
    let vertices = vec![GlVertexBufferBinding { slot: 0, buffer: buffer(), offset: 0 }];
    let index = GlIndexBinding { buffer: buffer(), format: GlIndexFormat::Uint16, offset: 4 };
    provider.bind_vertex_array(array, &vertices, Some(index)).unwrap();
    assert_eq!(provider.bound_vertex_array, Some(array));
    assert_eq!(provider.vertex_array("test", array).unwrap().index, Some(index));
    calls.borrow_mut().clear();
    provider
        .draw_raster(GlDrawCommand::NonIndexed(GlNonIndexedDraw {
            first_vertex: 1,
            vertex_count: 3,
            instance_count: 1,
        }))
        .unwrap();
    provider
        .draw_raster(GlDrawCommand::Indexed(GlIndexedDraw {
            first_index: 2,
            index_count: 3,
            instance_count: 2,
        }))
        .unwrap();
    let given = calls.borrow().clone();
    assert_eq!(
        given,
        vec![
            format!(
                "{:?}",
                GlCall::DrawArrays { mode: gl_const::TRIANGLES, first: 1, count: 3 }
            ),
            format!(
                "{:?}",
                GlCall::DrawElementsInstanced {
                    mode: gl_const::TRIANGLES,
                    count: 3,
                    kind: gl_const::UNSIGNED_SHORT,
                    offset: 8,
                    instances: 2
                }
            ),
        ]
    );
    provider.end_render_pass().unwrap();
    assert!(provider.pass.is_none());
}

#[test]
fn commands_are_executed_as_the_operations_they_name() {
    let direct = Rc::new(RefCell::new(vec![]));
    let mut one = provider(gl(&direct));
    let target = one.create_framebuffer(&framebuffer()).unwrap();
    let array = one.create_vertex_array(&layout()).unwrap();
    let vertices = vec![GlVertexBufferBinding { slot: 0, buffer: buffer(), offset: 0 }];
    let draw = GlDrawCommand::NonIndexed(GlNonIndexedDraw {
        first_vertex: 0,
        vertex_count: 3,
        instance_count: 1,
    });
    let pipeline = GlRasterPipeline { program: program(), vertex_array: array, state: state() };
    one.begin_render_pass(&pass(target, GlStoreOp::Store)).unwrap();
    one.set_raster_pipeline(&pipeline).unwrap();
    one.bind_vertex_array(array, &vertices, None).unwrap();
    one.draw_raster(draw).unwrap();
    one.end_render_pass().unwrap();
    one.destroy_vertex_array(array).unwrap();
    one.destroy_framebuffer(target).unwrap();

    let commanded = Rc::new(RefCell::new(vec![]));
    let mut other = provider(gl(&commanded));
    assert_eq!(other.create_framebuffer(&framebuffer()).unwrap(), target);
    assert_eq!(other.create_vertex_array(&layout()).unwrap(), array);
    let whole = RasterPipelineDiff {
        program: true,
        raster: true,
        depth_stencil: true,
        blend: true,
        multisample: true,
    };
    for command in [
        NativeCommand::BeginPass(pass(target, GlStoreOp::Store)),
        NativeCommand::ApplyPipeline { pipeline, diff: whole },
        NativeCommand::BindVertices {
            vertex_array: array,
            vertices: Arc::new(vertices),
            index: None,
        },
        NativeCommand::Draw(draw),
        NativeCommand::EndPass,
        NativeCommand::Destroy(NativeObject::VertexArray(array)),
        NativeCommand::Destroy(NativeObject::Framebuffer(target)),
    ] {
        assert!(matches!(other.command(&command), Some(Ok(()))));
    }
    assert_eq!(*direct.borrow(), *commanded.borrow());
    assert!(matches!(other.command(&NativeCommand::EndPass), Some(Err(_))));
}

#[test]
fn commands_that_are_not_executed_here_do_nothing() {
    let calls = Rc::new(RefCell::new(vec![]));
    let mut provider = provider(gl(&calls));
    let array = provider.create_vertex_array(&layout()).unwrap();
    calls.borrow_mut().clear();
    assert!(provider.command(&NativeCommand::Flush).is_none());
    assert!(provider.command(&NativeCommand::Destroy(NativeObject::Buffer(buffer()))).is_none());
    let part = RasterPipelineDiff {
        program: true,
        raster: true,
        depth_stencil: false,
        blend: true,
        multisample: true,
    };
    let pipeline = GlRasterPipeline { program: program(), vertex_array: array, state: state() };
    assert!(provider.command(&NativeCommand::ApplyPipeline { pipeline, diff: part }).is_none());
    assert!(calls.borrow().is_empty());
}

#[test]
fn objects_are_found_in_their_tables() {
    let calls = Rc::new(RefCell::new(vec![]));
    let mut provider = provider(gl(&calls));
    let array = provider.create_vertex_array(&layout()).unwrap();
    assert!(matches!(provider.find("test", NativeObject::Buffer(buffer())), Some(Ok(()))));
    assert!(matches!(provider.find("test", NativeObject::Texture(texture())), Some(Ok(()))));
    assert!(matches!(provider.find("test", NativeObject::Program(program())), Some(Ok(()))));
    assert!(matches!(provider.find("test", NativeObject::VertexArray(array)), Some(Ok(()))));
    provider.destroy_vertex_array(array).unwrap();
    assert!(matches!(
        provider.find("test", NativeObject::VertexArray(array)),
        Some(Err(GlError::StaleObject { operation: "test" }))
    ));
    let sampler = SamplerId::new(stamp(), 0, 0);
    assert!(provider.find("test", NativeObject::Sampler(sampler)).is_none());
}

#[test]
fn an_indexed_draw_outside_its_buffer_is_refused() {
    let index = GlIndexBinding { buffer: buffer(), format: GlIndexFormat::Uint32, offset: 8 };
    assert_eq!(index_size(GlIndexFormat::Uint32), 4);
    assert_eq!(indexed_draw_offset(index, 3), Some(20));
    assert_eq!(indexed_draw_span(index, 3, 2), Some(28));
    assert_eq!(indexed_draw_offset(GlIndexBinding { offset: u64::MAX, ..index }, 1), None);
    let calls = Rc::new(RefCell::new(vec![]));
    let mut provider = provider(gl(&calls));
    let target = provider.create_framebuffer(&framebuffer()).unwrap();
    let array = provider.create_vertex_array(&layout()).unwrap();
    provider.begin_render_pass(&pass(target, GlStoreOp::Store)).unwrap();
    let pipeline = GlRasterPipeline { program: program(), vertex_array: array, state: state() };
    provider.set_raster_pipeline(&pipeline).unwrap();
    let vertices = vec![GlVertexBufferBinding { slot: 0, buffer: buffer(), offset: 0 }];
    provider.bind_vertex_array(array, &vertices, Some(index)).unwrap();
    calls.borrow_mut().clear();
    let draw = GlIndexedDraw { first_index: 0, index_count: 15, instance_count: 1 };
    assert!(matches!(
        provider.draw_raster(GlDrawCommand::Indexed(draw)),
        Err(GlError::Validation { operation: "draw-raster", .. })
    ));
    assert!(calls.borrow().is_empty());
}

#[test]
fn a_framebuffer_that_is_not_complete_is_deleted() {
    let calls = Rc::new(RefCell::new(vec![]));
    let mut provider = provider(Gl { status: 0x8CD6, ..gl(&calls) });
    assert!(provider.create_framebuffer(&framebuffer()).is_err());
    let given = calls.borrow();
    let made = position(&given, "FramebufferTexture2d");
    let gone = position(&given, "DeleteFramebuffer { framebuffer: 71 }");
    assert!(made < gone);
}

#[test]
fn an_attachment_matches_its_texture() {
    let calls = Rc::new(RefCell::new(vec![]));
    let provider = provider(gl(&calls));
    assert!(provider.validate_attachment("test", view()).is_ok());
    for wrong in [
        GlTextureView { format: GlFormat::Rgba8Srgb, ..view() },
        GlTextureView { mip_level: 1, ..view() },
        GlTextureView { width: 7, ..view() },
        GlTextureView { sample_count: 4, ..view() },
    ] {
        assert!(matches!(
            provider.validate_attachment("test", wrong),
            Err(GlError::Validation { operation: "test", .. })
        ));
    }
    assert!(matches!(
        provider.validate_attachment("test", GlTextureView { array_layer: 1, ..view() }),
        Err(GlError::Unsupported { operation: "test", .. })
    ));
    let stale = GlTextureView {
        target: GlAttachmentTarget::Texture(TextureId::new(stamp(), 1, 9)),
        ..view()
    };
    assert!(matches!(
        provider.validate_attachment("test", stale),
        Err(GlError::StaleObject { operation: "test" })
    ));
    let foreign = ContextStamp::new(DeviceIdentity::new(2).unwrap(), ContextEpoch::initial());
    let strange = GlTextureView {
        target: GlAttachmentTarget::Texture(TextureId::new(foreign, 1, 0)),
        ..view()
    };
    assert!(matches!(
        provider.validate_attachment("test", strange),
        Err(GlError::WrongContext { operation: "test" })
    ));
}

#[test]
fn passes_do_not_nest() {
    let calls = Rc::new(RefCell::new(vec![]));
    let mut provider = provider(gl(&calls));
    assert!(provider.end_render_pass().is_err());
    let target = provider.create_framebuffer(&framebuffer()).unwrap();
    provider.begin_render_pass(&pass(target, GlStoreOp::Store)).unwrap();
    assert!(provider.begin_render_pass(&pass(target, GlStoreOp::Store)).is_err());
    provider.end_render_pass().unwrap();
    provider.destroy_framebuffer(target).unwrap();
    assert!(matches!(
        provider.begin_render_pass(&pass(target, GlStoreOp::Store)),
        Err(GlError::StaleObject { .. })
    ));
}

#[test]
fn what_is_discarded_is_given_up() {
    let calls = Rc::new(RefCell::new(vec![]));
    let mut provider = provider(gl(&calls));
    let target = provider.create_framebuffer(&framebuffer()).unwrap();
    provider.begin_render_pass(&pass(target, GlStoreOp::Discard)).unwrap();
    provider.end_render_pass().unwrap();
    let wanted = format!("Invalidate [{}]", gl_const::COLOR_ATTACHMENT0);
    position(&calls.borrow(), &wanted);
    assert!(supports_framebuffer_invalidate(GlFamilyProfile::WebGl2));
    assert!(supports_framebuffer_invalidate(GlFamilyProfile::Desktop { major: 4, minor: 3 }));
    assert!(!supports_framebuffer_invalidate(GlFamilyProfile::Desktop { major: 4, minor: 2 }));
}

#[test]
fn driver_errors_are_told_apart() {
    let calls = Rc::new(RefCell::new(vec![]));
    let mut provider = provider(Gl {
        errors: vec![0x0502, gl_const::CONTEXT_LOST, gl_const::OUT_OF_MEMORY, gl_const::NO_ERROR],
        ..gl(&calls)
    });
    assert!(provider.driver_error("test").is_ok());
    assert!(matches!(
        provider.driver_error("test"),
        Err(GlError::OutOfMemory { operation: "test" })
    ));
    assert!(matches!(
        provider.driver_error("test"),
        Err(GlError::ContextLost { operation: "test" })
    ));
    provider.lifecycle = GlContextLifecycle::Active;
    assert!(matches!(
        provider.driver_error("test"),
        Err(GlError::Driver { operation: "test", .. })
    ));
}

#[test]
fn several_draws_are_given_one_by_one() {
    let calls = Rc::new(RefCell::new(vec![]));
    let mut provider = provider(gl(&calls));
    let target = provider.create_framebuffer(&framebuffer()).unwrap();
    let array = provider.create_vertex_array(&layout()).unwrap();
    provider.begin_render_pass(&pass(target, GlStoreOp::Store)).unwrap();
    let pipeline = GlRasterPipeline { program: program(), vertex_array: array, state: state() };
    provider.set_raster_pipeline(&pipeline).unwrap();
    let vertices = vec![GlVertexBufferBinding { slot: 0, buffer: buffer(), offset: 0 }];
    provider.bind_vertex_array(array, &vertices, None).unwrap();
    calls.borrow_mut().clear();
    let draw = GlDrawCommand::NonIndexed(GlNonIndexedDraw {
        first_vertex: 0,
        vertex_count: 3,
        instance_count: 1,
    });
    provider.multi_draw(&GlMultiDraw { draws: vec![draw, draw] }).unwrap();
    assert_eq!(calls.borrow().len(), 2);
}

#[test]
fn words_become_their_tokens() {
    assert_eq!(topology_mode(GlPrimitiveTopology::LineStrip), glow::LINE_STRIP);
    assert_eq!(compare_function(GlDepthCompareFunction::GreaterEqual), glow::GEQUAL);
    assert_eq!(stencil_operation(GlStencilOperation::DecrementWrap), glow::DECR_WRAP);
    assert_eq!(blend_factor(GlBlendFactor::SrcAlphaSaturated), glow::SRC_ALPHA_SATURATE);
    assert_eq!(blend_operation(GlBlendOperation::ReverseSubtract), glow::FUNC_REVERSE_SUBTRACT);
    assert_eq!(draw_buffer_constant(2), glow::COLOR_ATTACHMENT2);
    let mask = GlBlitMask { color: true, depth: false, stencil: true };
    assert_eq!(blit_mask_bits(mask), glow::COLOR_BUFFER_BIT | glow::STENCIL_BUFFER_BIT);
    assert_eq!(
        fluxel_gl::native::exec_framebuffer::blit_filter(GlFilterMode::Linear),
        glow::LINEAR
    );
    assert_eq!(framebuffer_shape(&framebuffer()), (8, 4, 1));
}

#[test]
fn attributes_have_their_form() {
    assert_eq!(
        attribute_path(GlVertexFormat::Unorm8x4),
        AttributePath::Float { size: 4, kind: glow::UNSIGNED_BYTE, normalized: true }
    );
    assert_eq!(
        attribute_path(GlVertexFormat::Sint32x2),
        AttributePath::Integer { size: 2, kind: glow::INT }
    );
    assert_eq!(attribute_byte_size(GlVertexFormat::Float16x4), 8);
    assert!(validate_layout(&layout()));
    let mut double = layout();
    double.attributes.push(double.attributes[0]);
    assert!(!validate_layout(&double));
    let mut loose = layout();
    loose.attributes[0].buffer_slot = 1;
    assert!(!validate_layout(&loose));
}

#[test]
fn a_failed_installation_leaves_no_pipeline() {
    let calls = Rc::new(RefCell::new(vec![]));
    let mut provider = provider(gl(&calls));
    let target = provider.create_framebuffer(&framebuffer()).unwrap();
    let array = provider.create_vertex_array(&layout()).unwrap();
    provider.begin_render_pass(&pass(target, GlStoreOp::Store)).unwrap();
    let mut clamped = state();
    clamped.color_targets = Arc::new(vec![
        GlColorTargetState { write_mask: 0b1111, blend: None },
        GlColorTargetState { write_mask: 0b0001, blend: None },
    ]);
    let pipeline = GlRasterPipeline { program: program(), vertex_array: array, state: clamped };
    assert!(provider.set_raster_pipeline(&pipeline).is_err());
    assert!(provider.raster.is_none());
    let draw = GlNonIndexedDraw { first_vertex: 0, vertex_count: 3, instance_count: 1 };
    assert!(provider.draw_raster(GlDrawCommand::NonIndexed(draw)).is_err());
}
