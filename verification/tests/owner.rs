use std::cell::RefCell;
use std::rc::Rc;
use std::sync::Arc;

use fluxel_gl::api::command::{
    BufferCopy, CopyRecord, DrawInputs, GlSubmissionBatch, GlSubmissionPlan, IndexSpan, PlanPoint,
    RasterDraw, RecordedCommand, RecordedPayload, ScissorRect,
};
use fluxel_gl::api::error::{
    CompletionFailure, CompletionState, DeviceLossInfo, GlError, Message, RhiError, RhiErrorKind,
};
use fluxel_gl::api::format::{TextureAspects, TextureFormat};
use fluxel_gl::api::gl::{
    GlBufferDesc, GlBufferRange, GlColorBits, GlFenceLease, GlFenceStatus, GlFramebufferDescriptor,
    GlPixelLayout, GlProgramDescriptor, GlSamplerDesc, GlShaderSource, GlSurfaceAcquire,
    GlSurfaceLease, GlSurfaceSize, GlTextureDesc, GlTextureRegion, GlVertexBufferBinding,
    GlVertexLayout,
};
use fluxel_gl::api::identity::{
    BufferId, ContextEpoch, ContextStamp, DeviceIdentity, FramebufferId, ObjectId, ProgramId,
    QueryId, SamplerId, ShaderId, SyncId, TextureId, VertexArrayId,
};
use fluxel_gl::api::pipeline::{
    ColorTargetState, ColorWriteMask, CullMode, FrontFace, MultisampleState, PolygonMode,
    PrimitiveState, PrimitiveTopology, RasterPipelineDescriptor, VertexAttribute,
    VertexBufferLayout, VertexFormat, VertexStepMode,
};
use fluxel_gl::api::resource::{
    Buffer, BufferDescriptor, BufferRange, BufferUsage, Extent2d, QuerySetDescriptor, QueryType,
    RasterPipeline,
    ReadbackRequest, ReadbackStatus, ReadbackTicket, TextureDescriptor, TextureUsage,
    TextureViewDescriptor, TextureViewDimension,
};
use fluxel_gl::api::shader::{
    AbiVersion, PipelineInterface, ShaderArtifact, ShaderCode, ShaderModule, ShaderStage,
};
use fluxel_gl::native::link::{
    NativeCommand, NativeObject, NativePlatformContext, NativeProvider, TexelRead,
};
use fluxel_gl::native::owner::{
    map_gl, name, slot, NativeGeometryKey, NativeOwnedProvider, Notice, PresentState,
};
use fluxel_gl::native::present::{AcquireErrorKind, Progress};
use fluxel_gl::platform::object::{GlObjectKind, GlObjectName, GlShaderRef, GlTextureRef};

struct Context {
    journal: Rc<RefCell<Vec<String>>>,
    extent: Option<Extent2d>,
}

impl NativePlatformContext for Context {
    fn make_current(&mut self, _: &'static str) -> Result<(), RhiError> {
        Ok(())
    }

    fn supports_presentation(&mut self) -> bool {
        true
    }

    fn drawable_extent(&mut self) -> Result<Option<Extent2d>, RhiError> {
        Ok(self.extent)
    }

    fn present(&mut self) -> Result<(), RhiError> {
        self.journal.borrow_mut().push("Flip".to_owned());
        Ok(())
    }
}

struct Provider {
    journal: Rc<RefCell<Vec<String>>>,
    next: u32,
    fence: Rc<RefCell<GlFenceStatus>>,
    refuse: &'static str,
    desc: Option<GlTextureDesc>,
}

impl Provider {
    fn slot(&mut self) -> u32 {
        self.next += 1;
        self.next - 1
    }
}

impl NativeProvider for Provider {
    fn assert_ready(&mut self, _: &'static str) -> Result<(), GlError> {
        Ok(())
    }

    fn context_stamp(&mut self) -> ContextStamp {
        stamp()
    }

    fn find(&mut self, operation: &'static str, object: NativeObject) -> Result<(), GlError> {
        match object {
            NativeObject::Buffer(id) if id.slot >= 50 => Err(GlError::StaleObject { operation }),
            _ => Ok(()),
        }
    }

    fn texture(&mut self, operation: &'static str, _: TextureId) -> Result<GlTextureDesc, GlError> {
        match self.desc {
            Some(desc) => Ok(desc),
            None => Err(GlError::StaleObject { operation }),
        }
    }

    fn surface_extent(&mut self) -> Option<GlSurfaceSize> {
        Some(GlSurfaceSize { width: 4, height: 2 })
    }

    fn acquire_surface_image(&mut self) -> Result<GlSurfaceAcquire, GlError> {
        Ok(GlSurfaceAcquire::Lease(GlSurfaceLease {
            image: 1,
            size: GlSurfaceSize { width: 4, height: 2 },
        }))
    }

    fn create_buffer_resource(&mut self, _: GlBufferDesc) -> Result<BufferId, GlError> {
        Ok(BufferId::new(stamp(), self.slot(), 0))
    }

    fn create_texture_resource(&mut self, desc: GlTextureDesc) -> Result<TextureId, GlError> {
        self.desc = Some(desc);
        Ok(TextureId::new(stamp(), self.slot(), 0))
    }

    fn create_sampler(&mut self, _: GlSamplerDesc) -> Result<SamplerId, GlError> {
        Ok(SamplerId::new(stamp(), self.slot(), 0))
    }

    fn create_query(&mut self) -> Result<QueryId, GlError> {
        Ok(QueryId::new(stamp(), self.slot(), 0))
    }

    fn create_shader(&mut self, _: &GlShaderSource) -> Result<ShaderId, GlError> {
        Ok(ShaderId::new(stamp(), self.slot(), 0))
    }

    fn create_program(&mut self, _: &GlProgramDescriptor) -> Result<ProgramId, GlError> {
        self.journal.borrow_mut().push("Program".to_owned());
        Ok(ProgramId::new(stamp(), self.slot(), 0))
    }

    fn create_vertex_array(&mut self, _: &GlVertexLayout) -> Result<VertexArrayId, GlError> {
        self.journal.borrow_mut().push("VertexArray".to_owned());
        Ok(VertexArrayId::new(stamp(), self.slot(), 0))
    }

    fn create_framebuffer(
        &mut self,
        _: &GlFramebufferDescriptor,
    ) -> Result<FramebufferId, GlError> {
        Ok(FramebufferId::new(stamp(), self.slot(), 0))
    }

    fn create_fence(&mut self) -> Result<GlFenceLease, GlError> {
        self.journal.borrow_mut().push("Fence".to_owned());
        Ok(GlFenceLease { fence: SyncId::new(stamp(), self.slot(), 0) })
    }

    fn poll_fence(&mut self, _: GlFenceLease) -> Result<GlFenceStatus, GlError> {
        Ok(*self.fence.borrow())
    }

    fn read_buffer(&mut self, source: GlBufferRange) -> Result<Arc<Vec<u8>>, GlError> {
        Ok(Arc::new(vec![9; source.size as usize]))
    }

    fn read_texture(
        &mut self,
        _: GlTextureRegion,
        layout: GlPixelLayout,
    ) -> Result<TexelRead, GlError> {
        Ok(TexelRead { bytes: Arc::new(vec![]), layout })
    }

    fn command(&mut self, command: &NativeCommand) -> Result<(), GlError> {
        let text = format!("{command:?}");
        let refused = !self.refuse.is_empty() && text.starts_with(self.refuse);
        self.journal.borrow_mut().push(text);
        if refused {
            Err(GlError::Driver { operation: "test", message: Message::Text("refused") })
        } else {
            Ok(())
        }
    }
}

fn stamp() -> ContextStamp {
    ContextStamp::new(DeviceIdentity::new(1).unwrap(), ContextEpoch::initial())
}

struct World {
    journal: Rc<RefCell<Vec<String>>>,
    fence: Rc<RefCell<GlFenceStatus>>,
    owner: NativeOwnedProvider<Context, Provider>,
}

fn world(refuse: &'static str) -> World {
    let journal = Rc::new(RefCell::new(vec![]));
    let fence = Rc::new(RefCell::new(GlFenceStatus::Pending));
    let owner = NativeOwnedProvider::new(
        Context { journal: journal.clone(), extent: Some(Extent2d { width: 4, height: 2 }) },
        Provider { journal: journal.clone(), next: 0, fence: fence.clone(), refuse, desc: None },
    );
    World { journal, fence, owner }
}

fn usage() -> BufferUsage {
    BufferUsage { copy_src: true, copy_dst: true, map_read: true, ..BufferUsage::none() }
}

fn buffer(world: &mut World) -> Buffer {
    let descriptor = BufferDescriptor::new(64, usage());
    let native = world.owner.create_buffer(&descriptor).unwrap();
    Buffer { descriptor, native: Some(native) }
}

fn plan(payloads: Vec<RecordedPayload>) -> GlSubmissionPlan {
    let mut commands = Vec::new();
    for payload in payloads {
        commands.push(Arc::new(RecordedCommand { uses: vec![], payload }));
    }
    GlSubmissionPlan { batches: vec![GlSubmissionBatch { point: PlanPoint { value: 4 }, commands }] }
}

fn copy(src: &Buffer, dst: &Buffer) -> RecordedPayload {
    RecordedPayload::Copy(CopyRecord::Buffer(BufferCopy {
        src: Buffer { descriptor: src.descriptor, native: src.native },
        dst: Buffer { descriptor: dst.descriptor, native: dst.native },
        src_offset: 0,
        dst_offset: 16,
        size: 8,
    }))
}

#[test]
fn names_and_slots_lead_back_and_forth() {
    for value in [0, 1, 77, 0x7FFF_FFFE] {
        let given = name(value, "test").unwrap();
        assert_ne!(given.raw(), 0);
        assert_eq!(slot(given, "test").unwrap(), value);
    }
    assert!(name(u32::MAX, "test").is_err());
}

#[test]
fn a_copy_is_carried_out_in_order() {
    let mut world = world("");
    let src = buffer(&mut world);
    let dst = buffer(&mut world);
    let outcome = world.owner.submit(&plan(vec![copy(&src, &dst)])).unwrap();
    assert_eq!(outcome.points, vec![(PlanPoint { value: 4 }, outcome.completion)]);
    let journal = world.journal.borrow().clone();
    let copied = journal.iter().position(|entry| entry.starts_with("CopyBuffer"));
    let fenced = journal.iter().position(|entry| entry == "Fence");
    assert!(copied.is_some() && copied < fenced);
    assert!(matches!(world.owner.completion(outcome.completion), CompletionState::Pending));
    *world.fence.borrow_mut() = GlFenceStatus::Complete;
    assert!(matches!(world.owner.completion(outcome.completion), CompletionState::Complete));
    *world.fence.borrow_mut() = GlFenceStatus::Pending;
    assert!(matches!(world.owner.completion(outcome.completion), CompletionState::Complete));
    assert!(matches!(
        world.owner.completion(outcome.completion + 1),
        CompletionState::Failed(CompletionFailure::NeverAccepted { .. })
    ));
}

#[test]
fn a_waiter_is_woken_once_the_work_is_done() {
    let mut world = world("");
    let src = buffer(&mut world);
    let dst = buffer(&mut world);
    let serial = world.owner.submit(&plan(vec![copy(&src, &dst)])).unwrap().completion;
    assert!(matches!(
        world.owner.completion_or_register_waker(serial, 55),
        CompletionState::Pending
    ));
    assert!(world.owner.notices.is_empty());
    *world.fence.borrow_mut() = GlFenceStatus::Complete;
    assert!(matches!(world.owner.completion(serial), CompletionState::Complete));
    assert!(world
        .owner
        .notices
        .iter()
        .any(|notice| matches!(notice, Notice::Wake { waiter: 55 })));
}

#[test]
fn what_was_read_is_published_after_the_fence() {
    let mut world = world("");
    let src = buffer(&mut world);
    let ticket = ReadbackTicket {
        id: 8,
        request: ReadbackRequest::Buffer {
            src: Buffer { descriptor: src.descriptor, native: src.native },
            range: BufferRange { offset: 0, size: 4 },
        },
    };
    let serial =
        world.owner.submit(&plan(vec![RecordedPayload::Readback(ticket)])).unwrap().completion;
    assert!(world.owner.notices.is_empty());
    *world.fence.borrow_mut() = GlFenceStatus::Complete;
    assert!(matches!(world.owner.completion(serial), CompletionState::Complete));
    assert!(world.owner.notices.iter().any(|notice| matches!(
        notice,
        Notice::Publish { ticket, bytes, .. } if ticket.id == 8 && **bytes == vec![9; 4]
    )));
}

#[test]
fn refused_lowering_touches_nothing() {
    let mut world = world("");
    let src = buffer(&mut world);
    let strange = Buffer {
        descriptor: src.descriptor,
        native: Some(GlObjectName::new(60, "test").unwrap()),
    };
    world.journal.borrow_mut().clear();
    assert!(world.owner.submit(&plan(vec![copy(&src, &src), copy(&src, &strange)])).is_err());
    assert!(world.journal.borrow().is_empty());
    assert!(world.owner.completions.is_empty());
}

#[test]
fn work_that_fails_halfway_is_reported_as_failed() {
    let mut world = world("CopyBuffer");
    let src = buffer(&mut world);
    let dst = buffer(&mut world);
    let serial = world.owner.submit(&plan(vec![copy(&src, &dst)])).unwrap().completion;
    assert!(!matches!(
        world.owner.completion(serial),
        CompletionState::Complete | CompletionState::Pending
    ));
}

#[test]
fn a_loss_ends_pending_work() {
    let mut world = world("");
    let src = buffer(&mut world);
    let dst = buffer(&mut world);
    let serial = world.owner.submit(&plan(vec![copy(&src, &dst)])).unwrap().completion;
    world.owner.device_lost(&DeviceLossInfo::new(Message::Text("gone")));
    assert!(matches!(world.owner.completion(serial), CompletionState::DeviceLost(_)));
    assert!(!world.owner.any_pending());
}

#[test]
fn a_view_and_its_texture_go_together() {
    let mut world = world("");
    let descriptor = TextureDescriptor::new_2d(
        4,
        4,
        TextureFormat::Rgba8Unorm,
        TextureUsage { sampled: true, ..TextureUsage::none() },
    );
    let texture = world.owner.create_texture(&descriptor).unwrap();
    let view =
        TextureViewDescriptor::new(TextureViewDimension::D2, TextureAspects::color(), 0, 1, 0, 1);
    let made = world.owner.create_texture_view(GlTextureRef { name: texture }, &view).unwrap();
    assert!(world.owner.attachment_view(made, "test").is_ok());
    world.owner.destroy(GlObjectKind::Texture, texture).unwrap();
    assert!(world.owner.attachment_view(made, "test").is_err());
}

#[test]
fn query_sets_have_as_many_queries_as_asked_for() {
    let mut world = world("");
    let set = world
        .owner
        .create_query_set(&QuerySetDescriptor { ty: QueryType::Occlusion, count: 3 })
        .unwrap();
    let (_, ty) = world.owner.query_id(set, 2, Some(QueryType::Occlusion), "test").unwrap();
    assert_eq!(ty, QueryType::Occlusion);
    assert!(world.owner.query_id(set, 3, None, "test").is_err());
    world.owner.destroy(GlObjectKind::QuerySet, set).unwrap();
    assert!(world.owner.query_id(set, 0, None, "test").is_err());
    assert!(world.owner.destroy(GlObjectKind::QuerySet, set).is_err());
    let set = world
        .owner
        .create_query_set(&QuerySetDescriptor { ty: QueryType::Occlusion, count: 3 })
        .unwrap();
    assert!(world.owner.query_id(set, 0, Some(QueryType::Timestamp), "test").is_err());
    assert!(matches!(
        world.owner.create_query_set(&QuerySetDescriptor {
            ty: QueryType::PipelineStatistics,
            count: 1
        }),
        Err(error) if error.kind() == RhiErrorKind::Unsupported
    ));
}

#[test]
fn a_frame_is_acquired_and_shown_once() {
    let mut world = world("");
    assert!(world.owner.supports_presentation());
    let capabilities = world.owner.presentation_capabilities().unwrap();
    assert_eq!(capabilities.current, Some(Extent2d { width: 4, height: 2 }));
    let lease = world.owner.configure_presentation(ObjectId::new(3)).unwrap();
    let frame = match world.owner.try_acquire(lease) {
        Ok(Some(frame)) => frame,
        other => panic!("{other:?}"),
    };
    assert_eq!(frame.extent, Extent2d { width: 4, height: 2 });
    assert!(matches!(
        world.owner.try_acquire(lease),
        Err(error) if error.kind != AcquireErrorKind::DeviceLost
    ));
    let mut stale = frame;
    stale.serial += 1;
    world.owner.present(stale, 11);
    assert!(matches!(world.owner.present_state(11), Ok(PresentState::Failed(_))));
    assert!(!world.journal.borrow().iter().any(|entry| entry == "Flip"));
    world.owner.present(frame, 12);
    assert!(matches!(world.owner.present_state(12), Ok(PresentState::Accepted)));
    assert_eq!(world.journal.borrow().iter().filter(|entry| *entry == "Flip").count(), 1);
    assert!(world.owner.present_state(13).is_err());
    assert!(matches!(
        world.owner.acquire_or_register_waker(lease, 5),
        Progress::Ready(Ok(_))
    ));
    world.owner.abandon(lease).unwrap();
    world.owner.release_presentation(lease);
    assert!(world.owner.lease_capabilities(lease).is_err());
}

#[test]
fn a_drawable_of_nothing_has_no_frame() {
    let journal = Rc::new(RefCell::new(vec![]));
    let fence = Rc::new(RefCell::new(GlFenceStatus::Pending));
    for extent in [None, Some(Extent2d { width: 0, height: 2 }), Some(Extent2d { width: 4, height: 0 })]
    {
        let mut owner = NativeOwnedProvider::new(
            Context { journal: journal.clone(), extent },
            Provider {
                journal: journal.clone(),
                next: 0,
                fence: fence.clone(),
                refuse: "",
                desc: None,
            },
        );
        let lease = owner.configure_presentation(ObjectId::new(3)).unwrap();
        assert!(matches!(owner.try_acquire(lease), Ok(None)));
        assert!(matches!(
            owner.acquire_or_register_waker(lease, 1),
            Progress::Ready(Err(error)) if error.kind == AcquireErrorKind::NotReady
        ));
    }
    assert!(journal.borrow().is_empty());
}

#[test]
fn driver_errors_keep_their_kind() {
    assert_eq!(
        map_gl(GlError::OutOfMemory { operation: "test" }, "op").kind(),
        RhiErrorKind::OutOfMemory
    );
    assert_eq!(
        map_gl(GlError::ContextLost { operation: "test" }, "op").kind(),
        RhiErrorKind::DeviceLost
    );
    assert_eq!(
        map_gl(GlError::Unsupported { operation: "test", reason: "none" }, "op").kind(),
        RhiErrorKind::Unsupported
    );
    assert_eq!(
        map_gl(GlError::WrongContext { operation: "test" }, "op").kind(),
        RhiErrorKind::WrongDevice
    );
}

fn module(world: &mut World, stage: ShaderStage) -> ShaderModule {
    let artifact = Arc::new(ShaderArtifact {
        stage,
        code: ShaderCode::GlslEs { version: 310, source: Arc::new("void main() {}".to_owned()) },
        entry_point: Arc::new("main".to_owned()),
        content_hash: 7,
        abi_version: AbiVersion { major: 1, minor: 0 },
        resources: vec![],
    });
    let native = world.owner.create_shader(&artifact).unwrap();
    ShaderModule { artifact, native: Some(native) }
}

fn pipeline(world: &mut World, format: VertexFormat) -> Result<GlObjectName, RhiError> {
    let vertex = module(world, ShaderStage::Vertex);
    let fragment = module(world, ShaderStage::Fragment);
    let (first, second) = (vertex.native.unwrap(), fragment.native.unwrap());
    let descriptor = RasterPipelineDescriptor {
        label: None,
        vertex,
        fragment: Some(fragment),
        interface: PipelineInterface { declared: vec![] },
        vertex_buffers: vec![VertexBufferLayout {
            stride: 4,
            step_mode: VertexStepMode::Vertex,
            attributes: vec![VertexAttribute { location: 0, format, offset: 0 }],
        }],
        primitive: PrimitiveState {
            topology: PrimitiveTopology::TriangleList,
            cull_mode: CullMode::Back,
            front_face: FrontFace::Ccw,
            polygon_mode: PolygonMode::Fill,
            unclipped_depth: false,
            conservative: false,
        },
        color_targets: vec![Some(ColorTargetState {
            write_mask: ColorWriteMask { red: true, green: true, blue: true, alpha: true },
            blend: None,
        })],
        depth_stencil: None,
        multisample: MultisampleState {
            count: 1,
            mask: u32::MAX,
            alpha_to_coverage_enabled: false,
        },
    };
    world.owner.create_raster_pipeline(
        &descriptor,
        GlShaderRef { name: first },
        Some(GlShaderRef { name: second }),
    )
}

#[test]
fn a_pipeline_with_swapped_channels_is_refused_before_anything_is_made() {
    let mut world = world("");
    let refused = pipeline(&mut world, VertexFormat::Unorm8x4Bgra);
    assert!(matches!(refused, Err(error) if error.kind() == RhiErrorKind::Unsupported));
    let made = |world: &World| {
        world
            .journal
            .borrow()
            .iter()
            .filter(|entry| *entry == "Program" || *entry == "VertexArray")
            .count()
    };
    assert_eq!(made(&world), 0);
    assert!(pipeline(&mut world, VertexFormat::Unorm8x4).is_ok());
    assert_eq!(made(&world), 2);
}

fn geometry(array: u32, offset: u64) -> NativeGeometryKey {
    NativeGeometryKey {
        vertex_array: VertexArrayId::new(stamp(), array, 0),
        vertices: Arc::new(vec![GlVertexBufferBinding {
            slot: 0,
            buffer: BufferId::new(stamp(), 5, 0),
            offset,
        }]),
        index: None,
    }
}

#[test]
fn equal_geometry_shares_a_number_and_other_geometry_does_not() {
    let mut world = world("");
    let first = world.owner.geometry_canonical(geometry(1, 0), "test").unwrap();
    let moved = world.owner.geometry_canonical(geometry(1, 16), "test").unwrap();
    let src = buffer(&mut world);
    let dst = buffer(&mut world);
    world.owner.submit(&plan(vec![copy(&src, &dst)])).unwrap();
    let other = world.owner.geometry_canonical(geometry(2, 0), "test").unwrap();
    let again = world.owner.geometry_canonical(geometry(1, 0), "test").unwrap();
    assert_eq!(first, again);
    assert_ne!(first, moved);
    assert_ne!(first, other);
    assert_ne!(moved, other);
}

#[test]
fn an_end_stays_whatever_comes_after_it() {
    let mut world = world("");
    let src = buffer(&mut world);
    let dst = buffer(&mut world);
    let first = world.owner.submit(&plan(vec![copy(&src, &dst)])).unwrap().completion;
    *world.fence.borrow_mut() = GlFenceStatus::Complete;
    assert!(matches!(world.owner.completion(first), CompletionState::Complete));
    *world.fence.borrow_mut() = GlFenceStatus::Failed;
    let second = world.owner.submit(&plan(vec![copy(&src, &dst)])).unwrap().completion;
    assert!(matches!(
        world.owner.completion(second),
        CompletionState::Failed(CompletionFailure::Fence)
    ));
    *world.fence.borrow_mut() = GlFenceStatus::Pending;
    let third = world.owner.submit(&plan(vec![copy(&src, &dst)])).unwrap().completion;
    assert!(matches!(
        world.owner.completion_or_register_waker(third, 9),
        CompletionState::Pending
    ));
    world.owner.destroy(GlObjectKind::Buffer, dst.native.unwrap()).unwrap();
    world.owner.device_lost(&DeviceLossInfo::new(Message::Text("gone")));
    assert!(matches!(world.owner.completion(first), CompletionState::Complete));
    assert!(matches!(
        world.owner.completion(second),
        CompletionState::Failed(CompletionFailure::Fence)
    ));
    assert!(matches!(world.owner.completion(third), CompletionState::DeviceLost(_)));
    assert!(world
        .owner
        .notices
        .iter()
        .any(|notice| matches!(notice, Notice::Wake { waiter: 9 })));
}

#[test]
fn a_failed_readback_is_never_published() {
    let mut world = world("");
    let src = buffer(&mut world);
    let ticket = ReadbackTicket {
        id: 3,
        request: ReadbackRequest::Buffer {
            src: Buffer { descriptor: src.descriptor, native: src.native },
            range: BufferRange { offset: 0, size: 4 },
        },
    };
    let serial =
        world.owner.submit(&plan(vec![RecordedPayload::Readback(ticket)])).unwrap().completion;
    *world.fence.borrow_mut() = GlFenceStatus::Failed;
    assert!(matches!(world.owner.completion(serial), CompletionState::Failed(_)));
    assert!(world.owner.notices.iter().any(|notice| matches!(
        notice,
        Notice::Status { ticket, status: ReadbackStatus::Failed } if ticket.id == 3
    )));
    assert!(!world.owner.notices.iter().any(|notice| matches!(notice, Notice::Publish { .. })));
}

fn draw(pipeline: GlObjectName, scissor: Option<ScissorRect>) -> RecordedPayload {
    RecordedPayload::RasterDraw(RasterDraw {
        inputs: DrawInputs {
            pipeline: RasterPipeline { native: Some(pipeline) },
            groups: Arc::new(vec![]),
            vertex_buffers: vec![],
            index: None,
            viewport: None,
            scissor,
            blend_constant: GlColorBits { red: 0, green: 0, blue: 0, alpha: 0 },
            stencil_reference: 0,
        },
        range: IndexSpan { start: 0, end: 3 },
        instances: IndexSpan { start: 0, end: 1 },
        base_vertex: 0,
    })
}

#[test]
fn dynamic_values_do_not_outlast_their_draw() {
    let mut world = world("");
    let pipeline = pipeline(&mut world, VertexFormat::Unorm8x4).unwrap();
    let cut = Some(ScissorRect { x: 0, y: 0, width: 1, height: 1 });
    let payloads = vec![
        draw(pipeline, None),
        draw(pipeline, None),
        draw(pipeline, cut),
        draw(pipeline, None),
        draw(pipeline, None),
    ];
    world.journal.borrow_mut().clear();
    world.owner.submit(&plan(payloads)).unwrap();
    let journal = world.journal.borrow();
    let order: Vec<&str> = journal
        .iter()
        .filter_map(|entry| {
            if entry.starts_with("ApplyPipeline") {
                Some("apply")
            } else if entry.starts_with("Draw") {
                Some("draw")
            } else {
                None
            }
        })
        .collect();
    assert_eq!(
        order,
        vec!["apply", "draw", "draw", "apply", "draw", "apply", "draw", "draw"]
    );
}
