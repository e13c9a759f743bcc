//! The device around one adopted context.
//!
//! A lost context ends its device for good: the first loss is kept, everybody
//! who waits is woken, and nothing reaches the driver any longer.

use vstd::prelude::*;
use std::sync::Arc;
use crate::api::command::{
    BatchModel, GlPresentationLease, GlSubmissionBatch, GlSubmissionPlan, RecordedCommand,
    RecordedWork, SubmissionBatch, SubmissionRequest,
};
use crate::api::error;
use crate::api::error::{
    CompletionState, DeviceLossInfo, Message, RhiDetail, RhiError, RhiErrorKind,
};
use crate::api::identity::ObjectId;
use crate::api::pipeline::{ComputePipelineDescriptor, RasterPipelineDescriptor};
use crate::api::resource::{
    BindGroupDescriptor, BindGroupEntry, BindingResource, Buffer, BufferBinding, BufferDescriptor,
    BufferRange, MapMode, QuerySetDescriptor, Sampler, SamplerDescriptor, Texture,
    TextureDescriptor, TextureView, TextureViewDescriptor,
};
use crate::api::shader::ShaderArtifact;
use crate::exact::Share;
use crate::native::execute::SubmissionOutcome;
use crate::native::owner::PresentState;
use crate::native::present::PresentationTargetCapabilities;
use crate::platform::backing;
use crate::platform::driver;
use crate::platform::driver::{DriverLink, DriverStep, GlExecutionDriver};
use crate::platform::object::{
    EntryModel, GlBindGroupEntry, GlBindGroupPacket, GlBindingResource, GlBufferRef, GlBufferSpan,
    GlObjectKind, GlObjectName, GlSamplerRef, GlShaderRef, GlTextureRef, GlTextureViewRef,
    ResourceModel,
};

verus! {

/// The families of graphics interfaces.
#[derive(Clone, Copy, Debug, PartialEq, Eq, Structural)]
pub enum BackendKind {
    OpenGl,
    WebGl2,
    /// An interface outside the GL family.
    Foreign,
}

/// The identity of an adapter.
#[derive(Clone, Copy, Debug, PartialEq, Eq, Structural)]
pub struct AdapterId {
    pub instance: u64,
    pub index: u32,
}

/// What is known of the adapter behind a context.
#[derive(Debug)]
pub struct AdapterInfo {
    pub id: AdapterId,
    pub name: Arc<String>,
    pub backend: BackendKind,
    pub vendor_id: Option<u32>,
    pub device_id: Option<u32>,
}

impl Share for AdapterInfo {
    fn share(&self) -> (result: Self) {
        AdapterInfo {
            id: self.id,
            name: Arc::clone(&self.name),
            backend: self.backend,
            vendor_id: self.vendor_id,
            device_id: self.device_id,
        }
    }
}

/// Whether a device can be used.
#[derive(Clone, Copy, Debug, PartialEq, Eq, Structural)]
pub enum DeviceStatus {
    Active,
    Lost,
}

/// The kinds of work that a lane takes.
#[derive(Clone, Copy, Debug, PartialEq, Eq, Structural)]
pub struct LaneWorkDomains {
    pub raster: bool,
    pub compute: bool,
    pub copy: bool,
}

impl LaneWorkDomains {
    /// Whether all the other kinds are among these.
    pub fn contains(self, other: LaneWorkDomains) -> (result: bool)
        ensures
            result == ((other.raster ==> self.raster) && (other.compute ==> self.compute) && (
            other.copy ==> self.copy)),
    {
        (!other.raster || self.raster) && (!other.compute || self.compute) && (!other.copy
            || self.copy)
    }
}

/// What a lane is for.
#[derive(Clone, Copy, Debug, PartialEq, Eq, Structural)]
pub enum SubmissionLaneClass {
    General,
}

/// One ordered stream of work.
#[derive(Clone, Copy, Debug, PartialEq, Eq, Structural)]
pub struct SubmissionLaneInfo {
    pub id: u32,
    pub class: SubmissionLaneClass,
    pub domains: LaneWorkDomains,
}

/// A native object that a portable handle holds. Its owner gives it up with
/// [`GlDevice::release`].
#[derive(Clone, Copy, Debug, PartialEq, Eq, Structural)]
pub struct GlNative {
    pub kind: GlObjectKind,
    pub name: GlObjectName,
}

/// Whether the context is alive, and who waits for the device.
#[derive(Debug)]
pub struct Liveness {
    pub status: DeviceStatus,
    pub info: Option<DeviceLossInfo>,
    pub waiters: Vec<u64>,
}

impl Liveness {
    /// The device is lost exactly if there is a reason for it.
    pub open spec fn wf(&self) -> bool {
        (self.status is Lost) == (self.info is Some)
    }

    pub fn new() -> (result: Self)
        ensures
            result.wf(),
            result.info is None,
            result.waiters@.len() == 0,
    {
        Liveness { status: DeviceStatus::Active, info: None, waiters: Vec::new() }
    }

    /// Notes a loss. Only the first one counts; it hands out who waited.
    pub fn report(&mut self, info: DeviceLossInfo) -> (result: Option<Vec<u64>>)
        requires
            old(self).wf(),
        ensures
            final(self).wf(),
            match old(self).info {
                Some(_) => result is None && *final(self) == *old(self),
                None => {
                    &&& result is Some
                    &&& result->0@ == old(self).waiters@
                    &&& final(self).info == Some(info)
                    &&& final(self).waiters@.len() == 0
                },
            },
    {
        match self.status {
            DeviceStatus::Lost => None,
            DeviceStatus::Active => {
                self.status = DeviceStatus::Lost;
                self.info = Some(info);
                let mut waiters: Vec<u64> = Vec::new();
                std::mem::swap(&mut waiters, &mut self.waiters);
                Some(waiters)
            },
        }
    }
}

/// What a device has done and what it knows, by value.
#[verifier::ext_equal]
pub struct Device {
    /// By which the driver knows the device.
    pub object: ObjectId,
    pub log: Seq<DriverStep>,
    pub lost: Option<DeviceLossInfo>,
    pub waiters: Seq<u64>,
    /// Who has to be woken.
    pub woken: Seq<u64>,
}

impl Device {
    /// The answer to the next question, according to a record.
    pub open spec fn next(self, o: Seq<DriverStep>) -> DriverStep {
        o[self.log.len() as int]
    }

    /// The device after one more question.
    pub open spec fn asked(self, step: DriverStep) -> Device {
        Device { log: self.log.push(step), ..self }
    }

    /// Whether the device is alive.
    pub open spec fn active(self, operation: &'static str) -> Result<(), RhiError> {
        match self.lost {
            None => Ok(()),
            Some(info) => Err(
                RhiError {
                    kind: RhiErrorKind::DeviceLost,
                    detail: info.cause,
                    operation: Some(operation),
                },
            ),
        }
    }

    /// The device after a loss was reported. Only the first counts.
    pub open spec fn reported(self, info: DeviceLossInfo) -> Device {
        match self.lost {
            Some(_) => self,
            None => Device {
                lost: Some(info),
                woken: self.woken + self.waiters,
                waiters: Seq::empty(),
                ..self
            },
        }
    }

    /// The device after a loss was noticed. The first time the driver is told.
    pub open spec fn mark_lost(self, info: DeviceLossInfo) -> Device {
        match self.lost {
            Some(_) => self,
            None => self.reported(info).asked(DriverStep::DeviceLost { info }),
        }
    }

    /// The device after it was told of these losses. The first one ends it; the
    /// driver already knows.
    pub open spec fn told(self, losses: Seq<DeviceLossInfo>) -> Device {
        if losses.len() == 0 {
            self
        } else {
            self.reported(losses[0])
        }
    }

    /// The device after the driver told it of the losses that it met.
    pub open spec fn hearing(self, o: Seq<DriverStep>) -> Device {
        let reply = self.next(o)->TakeLosses_reply;
        self.asked(DriverStep::TakeLosses { device: self.object, reply }).told(reply)
    }

    /// Passes an answer of the driver on. A loss in it ends the device.
    pub open spec fn observe<T>(
        self,
        reply: Result<T, RhiError>,
        operation: &'static str,
        o: Seq<DriverStep>,
    ) -> (Device, Result<T, RhiError>) {
        match reply {
            Ok(value) => (self, Ok(value)),
            Err(error) => (
                if error.kind == RhiErrorKind::DeviceLost {
                    self.mark_lost(DeviceLossInfo { cause: error.detail })
                } else {
                    self
                },
                Err(RhiError { operation: Some(operation), ..error }),
            ),
        }
    }

    /// Passes the name of a new object on.
    pub open spec fn observe_name(
        self,
        reply: Result<GlObjectName, RhiError>,
        kind: GlObjectKind,
        operation: &'static str,
        o: Seq<DriverStep>,
    ) -> (Device, Result<GlNative, RhiError>) {
        let (seen, result) = self.observe(reply, operation, o);
        (
            seen,
            match result {
                Ok(name) => Ok(GlNative { kind, name }),
                Err(error) => Err(error),
            },
        )
    }

    pub open spec fn poll(self, o: Seq<DriverStep>) -> (Device, Result<(), RhiError>) {
        match self.active("GlDevice::poll") {
            Err(error) => (self, Err(error)),
            Ok(_) => {
                let reply = self.next(o)->Poll_reply;
                let seen = self.asked(DriverStep::Poll { reply });
                seen.observe(reply, "GlDevice::poll", o)
            },
        }
    }

    pub open spec fn wait_idle(self, o: Seq<DriverStep>) -> (Device, Result<(), RhiError>) {
        match self.active("GlDevice::wait_idle") {
            Err(error) => (self, Err(error)),
            Ok(_) => {
                let reply = self.next(o)->WaitIdle_reply;
                let seen = self.asked(DriverStep::WaitIdle { reply });
                seen.observe(reply, "GlDevice::wait_idle", o)
            },
        }
    }

    pub open spec fn create_buffer(self, desc: BufferDescriptor, o: Seq<DriverStep>) -> (Device, Result<GlNative, RhiError>) {
        match self.active("GlDevice::create_buffer") {
            Err(error) => (self, Err(error)),
            Ok(_) => {
                let reply = self.next(o)->CreateBuffer_reply;
                let seen = self.asked(DriverStep::CreateBuffer { desc, reply });
                seen.observe_name(reply, GlObjectKind::Buffer, "GlDevice::create_buffer", o)
            },
        }
    }

    pub open spec fn create_query_set(self, desc: QuerySetDescriptor, o: Seq<DriverStep>) -> (Device, Result<GlNative, RhiError>) {
        match self.active("GlDevice::create_query_set") {
            Err(error) => (self, Err(error)),
            Ok(_) => {
                let reply = self.next(o)->CreateQuerySet_reply;
                let seen = self.asked(DriverStep::CreateQuerySet { desc, reply });
                seen.observe_name(reply, GlObjectKind::QuerySet, "GlDevice::create_query_set", o)
            },
        }
    }

    pub open spec fn create_texture(self, desc: TextureDescriptor, o: Seq<DriverStep>) -> (Device, Result<GlNative, RhiError>) {
        match self.active("GlDevice::create_texture") {
            Err(error) => (self, Err(error)),
            Ok(_) => {
                let reply = self.next(o)->CreateTexture_reply;
                let seen = self.asked(DriverStep::CreateTexture { desc, reply });
                seen.observe_name(reply, GlObjectKind::Texture, "GlDevice::create_texture", o)
            },
        }
    }

    pub open spec fn create_sampler(self, desc: SamplerDescriptor, o: Seq<DriverStep>) -> (Device, Result<GlNative, RhiError>) {
        match self.active("GlDevice::create_sampler") {
            Err(error) => (self, Err(error)),
            Ok(_) => {
                let reply = self.next(o)->CreateSampler_reply;
                let seen = self.asked(DriverStep::CreateSampler { desc, reply });
                seen.observe_name(reply, GlObjectKind::Sampler, "GlDevice::create_sampler", o)
            },
        }
    }

    pub open spec fn create_shader(self, artifact: ShaderArtifact, o: Seq<DriverStep>) -> (Device, Result<GlNative, RhiError>) {
        match self.active("GlDevice::create_shader") {
            Err(error) => (self, Err(error)),
            Ok(_) => {
                let reply = self.next(o)->CreateShader_reply;
                let seen = self.asked(DriverStep::CreateShader { artifact, reply });
                seen.observe_name(reply, GlObjectKind::Shader, "GlDevice::create_shader", o)
            },
        }
    }

    pub open spec fn presentation_capabilities(self, target: ObjectId, o: Seq<DriverStep>) -> (Device, Result<PresentationTargetCapabilities, RhiError>) {
        match self.active("GlDevice::presentation_capabilities") {
            Err(error) => (self, Err(error)),
            Ok(_) => {
                let reply = self.next(o)->PresentationCapabilities_reply;
                let seen = self.asked(DriverStep::PresentationCapabilities { target, reply });
                seen.observe(reply, "GlDevice::presentation_capabilities", o)
            },
        }
    }

    pub open spec fn configure_presentation(self, target: ObjectId, o: Seq<DriverStep>) -> (Device, Result<GlPresentationLease, RhiError>) {
        match self.active("GlDevice::configure_presentation") {
            Err(error) => (self, Err(error)),
            Ok(_) => {
                let reply = self.next(o)->ConfigurePresentation_reply;
                let seen = self.asked(DriverStep::ConfigurePresentation { target, reply });
                seen.observe(reply, "GlDevice::configure_presentation", o)
            },
        }
    }

    pub open spec fn present_state(self, receipt: u64, o: Seq<DriverStep>) -> (Device, Result<PresentState, RhiError>) {
        match self.active("GlDevice::present_state") {
            Err(error) => (self, Err(error)),
            Ok(_) => {
                let reply = self.next(o)->PresentStateOf_reply;
                let seen = self.asked(DriverStep::PresentStateOf { receipt, reply });
                seen.observe(reply, "GlDevice::present_state", o)
            },
        }
    }

    pub open spec fn present_state_or_register_waker(self, receipt: u64, waiter: u64, o: Seq<DriverStep>) -> (Device, Result<PresentState, RhiError>) {
        match self.active("GlDevice::present_state_or_register_waker") {
            Err(error) => (self, Err(error)),
            Ok(_) => {
                let reply = self.next(o)->AwaitPresent_reply;
                let seen = self.asked(DriverStep::AwaitPresent { receipt, waiter, reply });
                seen.observe(reply, "GlDevice::present_state_or_register_waker", o)
            },
        }
    }

    pub open spec fn map_buffer(
        self,
        buffer: Buffer,
        mode: MapMode,
        range: BufferRange,
        o: Seq<DriverStep>,
    ) -> (Device, Result<u64, RhiError>) {
        let operation = "GlDevice::map_buffer";
        match self.active(operation) {
            Err(error) => (self, Err(error)),
            Ok(_) => match buffer.native {
                None => (
                    self,
                    Err(
                        RhiError {
                            operation: Some(operation),
                            ..backing::unbacked("buffer has no GL native backing")
                        },
                    ),
                ),
                Some(name) => {
                    let reply = self.next(o)->MapBuffer_reply;
                    self.asked(
                        DriverStep::MapBuffer { buffer: GlBufferRef { name }, mode, range, reply },
                    ).observe(reply, operation, o)
                },
            },
        }
    }

    pub open spec fn create_texture_view(
        self,
        texture: Texture,
        desc: TextureViewDescriptor,
        o: Seq<DriverStep>,
    ) -> (Device, Result<GlNative, RhiError>) {
        let operation = "GlDevice::create_texture_view";
        match self.active(operation) {
            Err(error) => (self, Err(error)),
            Ok(_) => match texture.native {
                None => (
                    self,
                    Err(
                        RhiError {
                            operation: Some(operation),
                            ..backing::unbacked("texture has no GL native backing")
                        },
                    ),
                ),
                Some(name) => {
                    let reply = self.next(o)->CreateTextureView_reply;
                    self.asked(
                        DriverStep::CreateTextureView {
                            texture: GlTextureRef { name },
                            desc,
                            reply,
                        },
                    ).observe_name(reply, GlObjectKind::TextureView, operation, o)
                },
            },
        }
    }

    pub open spec fn create_bind_group(
        self,
        entries: Seq<BindGroupEntry>,
        o: Seq<DriverStep>,
    ) -> (Device, Result<GlNative, RhiError>) {
        let operation = "GlDevice::create_bind_group";
        match self.active(operation) {
            Err(error) => (self, Err(error)),
            Ok(_) => match packed(entries) {
                Err(error) => (self, Err(RhiError { operation: Some(operation), ..error })),
                Ok(packet) => {
                    let reply = self.next(o)->CreateBindGroup_reply;
                    self.asked(DriverStep::CreateBindGroup { packet, reply }).observe_name(
                        reply,
                        GlObjectKind::BindGroup,
                        operation,
                        o,
                    )
                },
            },
        }
    }

    pub open spec fn create_compute_pipeline(
        self,
        desc: ComputePipelineDescriptor,
        o: Seq<DriverStep>,
    ) -> (Device, Result<GlNative, RhiError>) {
        let operation = "GlDevice::create_compute_pipeline";
        match self.active(operation) {
            Err(error) => (self, Err(error)),
            Ok(_) => match desc.shader.native {
                None => (self, Err(unbacked_shader(operation))),
                Some(name) => {
                    let reply = self.next(o)->CreateComputePipeline_reply;
                    self.asked(
                        DriverStep::CreateComputePipeline {
                            desc,
                            shader: GlShaderRef { name },
                            reply,
                        },
                    ).observe_name(reply, GlObjectKind::ComputePipeline, operation, o)
                },
            },
        }
    }

    pub open spec fn create_raster_pipeline(
        self,
        desc: RasterPipelineDescriptor,
        o: Seq<DriverStep>,
    ) -> (Device, Result<GlNative, RhiError>) {
        let operation = "GlDevice::create_raster_pipeline";
        match self.active(operation) {
            Err(error) => (self, Err(error)),
            Ok(_) => if desc.vertex.native is None || (desc.fragment is Some
                && desc.fragment->0.native is None) {
                (self, Err(unbacked_shader(operation)))
            } else {
                let reply = self.next(o)->CreateRasterPipeline_reply;
                self.asked(
                    DriverStep::CreateRasterPipeline {
                        desc,
                        vertex: GlShaderRef { name: desc.vertex.native->0 },
                        fragment: match desc.fragment {
                            None => None,
                            Some(module) => Some(GlShaderRef { name: module.native->0 }),
                        },
                        reply,
                    },
                ).observe_name(reply, GlObjectKind::RasterPipeline, operation, o)
            },
        }
    }

    pub open spec fn submit(self, batches: Seq<SubmissionBatch>, o: Seq<DriverStep>) -> (
        Device,
        Result<SubmissionOutcome, RhiError>,
    ) {
        match self.active("GlDevice::submit") {
            Err(error) => (self, Err(error)),
            Ok(_) => {
                let reply = self.next(o)->Submit_reply;
                self.asked(
                    DriverStep::Submit { batches: planned(batches), reply },
                ).observe(reply, "GlDevice::submit", o)
            },
        }
    }

    /// The device after it saw the state of a submission.
    pub open spec fn seeing(self, state: CompletionState) -> (Device, CompletionState) {
        match state {
            CompletionState::DeviceLost(info) => {
                let lost = self.mark_lost(info);
                (lost, CompletionState::DeviceLost(lost.lost->0))
            },
            _ => (self, state),
        }
    }

    pub open spec fn completion(self, serial: u64, o: Seq<DriverStep>) -> (
        Device,
        CompletionState,
    ) {
        match self.lost {
            Some(info) => (self, CompletionState::DeviceLost(info)),
            None => {
                let reply = self.next(o)->Completion_reply;
                self.asked(DriverStep::Completion { serial, reply }).hearing(o).seeing(reply)
            },
        }
    }

    pub open spec fn completion_or_register_waker(
        self,
        serial: u64,
        waiter: u64,
        o: Seq<DriverStep>,
    ) -> (Device, CompletionState) {
        match self.lost {
            Some(info) => (self, CompletionState::DeviceLost(info)),
            None => {
                let reply = self.next(o)->AwaitCompletion_reply;
                let asked = self.asked(
                    DriverStep::AwaitCompletion { serial, waiter, reply },
                ).hearing(o);
                if reply is Pending {
                    (Device { waiters: asked.waiters.push(waiter), ..asked }, reply)
                } else {
                    asked.seeing(reply)
                }
            },
        }
    }
}

/// The error for a shader that GL does not back.
pub open spec fn unbacked_shader(operation: &'static str) -> RhiError {
    RhiError {
        operation: Some(operation),
        ..backing::unbacked("shader module has no GL native backing")
    }
}

/// What a binding of a buffer becomes.
pub open spec fn packed_span(binding: BufferBinding) -> GlBufferSpan {
    GlBufferSpan {
        buffer: GlBufferRef { name: binding.buffer.native->0 },
        offset: binding.range.offset,
        size: binding.range.size,
    }
}

/// What stands at one slot, by its names.
pub open spec fn packed_resource(resource: BindingResource) -> Result<ResourceModel, RhiError> {
    match resource {
        BindingResource::Buffer(binding) => if binding.buffer.native is None {
            Err(backing::unbacked("buffer has no GL native backing"))
        } else {
            Ok(ResourceModel::Buffer(packed_span(binding)))
        },
        BindingResource::Texture(view) => match view.native {
            None => Err(backing::unbacked("texture view has no GL native backing")),
            Some(name) => Ok(ResourceModel::Texture(GlTextureViewRef { name })),
        },
        BindingResource::Sampler(sampler) => match sampler.native {
            None => Err(backing::unbacked("sampler has no GL native backing")),
            Some(name) => Ok(ResourceModel::Sampler(GlSamplerRef { name })),
        },
        BindingResource::BufferArray(bindings) => if exists|i: int|
            0 <= i < bindings@.len() && (#[trigger] bindings@[i]).buffer.native is None {
            Err(backing::unbacked("buffer has no GL native backing"))
        } else {
            Ok(
                ResourceModel::BufferArray(
                    bindings@.map_values(|binding: BufferBinding| packed_span(binding)),
                ),
            )
        },
        BindingResource::TextureArray(views) => if exists|i: int|
            0 <= i < views@.len() && (#[trigger] views@[i]).native is None {
            Err(backing::unbacked("texture view has no GL native backing"))
        } else {
            Ok(
                ResourceModel::TextureArray(
                    views@.map_values(
                        |view: TextureView| GlTextureViewRef { name: view.native->0 },
                    ),
                ),
            )
        },
        BindingResource::SamplerArray(samplers) => if exists|i: int|
            0 <= i < samplers@.len() && (#[trigger] samplers@[i]).native is None {
            Err(backing::unbacked("sampler has no GL native backing"))
        } else {
            Ok(
                ResourceModel::SamplerArray(
                    samplers@.map_values(
                        |sampler: Sampler| GlSamplerRef { name: sampler.native->0 },
                    ),
                ),
            )
        },
        _ => Err(
            error::rhi_error(
                RhiErrorKind::Unsupported,
                "this GL backend does not lower acceleration-structure or external-texture bindings",
            ),
        ),
    }
}

/// A bind group by the names of what it binds, or the first error.
pub open spec fn packed(entries: Seq<BindGroupEntry>) -> Result<Seq<EntryModel>, RhiError>
    decreases entries.len(),
{
    if entries.len() == 0 {
        Ok(Seq::empty())
    } else {
        match packed(entries.drop_last()) {
            Err(error) => Err(error),
            Ok(before) => match packed_resource(entries.last().resource) {
                Err(error) => Err(error),
                Ok(resource) => Ok(
                    before.push(EntryModel { slot: entries.last().slot, resource }),
                ),
            },
        }
    }
}

proof fn lemma_packed_stops(entries: Seq<BindGroupEntry>, at: int)
    requires
        0 <= at <= entries.len(),
        packed(entries.take(at)) is Err,
    ensures
        packed(entries) == packed(entries.take(at)),
    decreases entries.len(),
{
    if at == entries.len() {
        assert(entries.take(at) =~= entries);
    } else {
        assert(entries.drop_last().take(at) =~= entries.take(at));
        lemma_packed_stops(entries.drop_last(), at);
    }
}

/// The commands of some work, one after the other.
pub open spec fn all_commands(work: Seq<RecordedWork>) -> Seq<Arc<RecordedCommand>>
    decreases work.len(),
{
    if work.len() == 0 {
        Seq::empty()
    } else {
        all_commands(work.drop_last()) + work.last().commands@
    }
}

/// The submission as the driver gets it.
pub open spec fn planned(batches: Seq<SubmissionBatch>) -> Seq<BatchModel> {
    batches.map_values(
        |batch: SubmissionBatch|
            BatchModel { point: batch.point, commands: all_commands(batch.work@) },
    )
}

/// A loss is final: the first reason stays, whatever is reported or noticed
/// afterwards, and the driver is asked nothing more.
pub proof fn a_loss_is_final(
    device: Device,
    info: DeviceLossInfo,
    later: DeviceLossInfo,
    serial: u64,
    waiter: u64,
    operation: &'static str,
    o: Seq<DriverStep>,
)
    requires
        device.lost == Some(info),
    ensures
        device.reported(later) == device,
        device.mark_lost(later) == device,
        device.active(operation) is Err,
        device.active(operation)->Err_0.kind == RhiErrorKind::DeviceLost,
        device.poll(o).0 == device && device.poll(o).1 is Err,
        device.wait_idle(o).0 == device && device.wait_idle(o).1 is Err,
        device.completion(serial, o) == (device, CompletionState::DeviceLost(info)),
        device.completion_or_register_waker(serial, waiter, o) == (
            device,
            CompletionState::DeviceLost(info),
        ),
{
}

/// Nothing can be made or submitted on a lost device.
pub proof fn lost_devices_make_nothing(
    device: Device,
    buffer: BufferDescriptor,
    texture: TextureDescriptor,
    sampler: SamplerDescriptor,
    batches: Seq<SubmissionBatch>,
    o: Seq<DriverStep>,
)
    requires
        device.lost is Some,
    ensures
        device.create_buffer(buffer, o).0 == device && device.create_buffer(buffer, o).1 is Err,
        device.create_texture(texture, o).0 == device && device.create_texture(texture, o).1 is Err,
        device.create_sampler(sampler, o).0 == device && device.create_sampler(sampler, o).1 is Err,
        device.submit(batches, o).0 == device && device.submit(batches, o).1 is Err,
{
}

/// A loss that a submission shows ends the device: everybody is woken, and the
/// driver is told once.
pub proof fn lost_submissions_end_the_device(
    device: Device,
    info: DeviceLossInfo,
)
    requires
        device.lost is None,
    ensures
        ({
            let (after, state) = device.seeing(CompletionState::DeviceLost(info));
            &&& state == CompletionState::DeviceLost(info)
            &&& after.lost == Some(info)
            &&& after.woken == device.woken + device.waiters
            &&& after.waiters.len() == 0
            &&& after.log == device.log.push(DriverStep::DeviceLost { info })
        }),
{
}

fn pack_spans(bindings: &Vec<BufferBinding>) -> (result: Result<Vec<GlBufferSpan>, RhiError>)
    ensures
        match packed_resource(BindingResource::BufferArray(*bindings)) {
            Ok(model) => result is Ok && model == ResourceModel::BufferArray(result->Ok_0@),
            Err(error) => result == Err::<Vec<GlBufferSpan>, _>(error),
        },
{
    let mut spans: Vec<GlBufferSpan> = Vec::new();
    let mut at: usize = 0;
    let ghost goal = bindings@.map_values(|binding: BufferBinding| packed_span(binding));
    while at < bindings.len()
        invariant
            at <= bindings@.len(),
            goal == bindings@.map_values(|binding: BufferBinding| packed_span(binding)),
            forall|i: int| 0 <= i < at ==> (#[trigger] bindings@[i]).buffer.native is Some,
            spans@ == goal.take(at as int),
        decreases bindings@.len() - at,
    {
        let binding = bindings[at];
        match backing::buffer_ref(&binding.buffer) {
            Ok(buffer) => {
                spans.push(
                    GlBufferSpan {
                        buffer,
                        offset: binding.range.offset,
                        size: binding.range.size,
                    },
                );
            },
            Err(error) => {
                assert(bindings@[at as int].buffer.native is None);
                return Err(error);
            },
        }
        at += 1;
        assert(spans@ =~= goal.take(at as int));
    }
    assert(goal.take(at as int) =~= goal);
    Ok(spans)
}

fn pack_views(views: &Vec<TextureView>) -> (result: Result<Vec<GlTextureViewRef>, RhiError>)
    ensures
        match packed_resource(BindingResource::TextureArray(*views)) {
            Ok(model) => result is Ok && model == ResourceModel::TextureArray(result->Ok_0@),
            Err(error) => result == Err::<Vec<GlTextureViewRef>, _>(error),
        },
{
    let mut refs: Vec<GlTextureViewRef> = Vec::new();
    let mut at: usize = 0;
    let ghost goal = views@.map_values(
        |view: TextureView| GlTextureViewRef { name: view.native->0 },
    );
    while at < views.len()
        invariant
            at <= views@.len(),
            goal == views@.map_values(
                |view: TextureView| GlTextureViewRef { name: view.native->0 },
            ),
            forall|i: int| 0 <= i < at ==> (#[trigger] views@[i]).native is Some,
            refs@ == goal.take(at as int),
        decreases views@.len() - at,
    {
        match backing::view_ref(&views[at]) {
            Ok(view) => {
                refs.push(view);
            },
            Err(error) => {
                assert(views@[at as int].native is None);
                return Err(error);
            },
        }
        at += 1;
        assert(refs@ =~= goal.take(at as int));
    }
    assert(goal.take(at as int) =~= goal);
    Ok(refs)
}

fn pack_samplers(samplers: &Vec<Sampler>) -> (result: Result<Vec<GlSamplerRef>, RhiError>)
    ensures
        match packed_resource(BindingResource::SamplerArray(*samplers)) {
            Ok(model) => result is Ok && model == ResourceModel::SamplerArray(result->Ok_0@),
            Err(error) => result == Err::<Vec<GlSamplerRef>, _>(error),
        },
{
    let mut refs: Vec<GlSamplerRef> = Vec::new();
    let mut at: usize = 0;
    let ghost goal = samplers@.map_values(
        |sampler: Sampler| GlSamplerRef { name: sampler.native->0 },
    );
    while at < samplers.len()
        invariant
            at <= samplers@.len(),
            goal == samplers@.map_values(
                |sampler: Sampler| GlSamplerRef { name: sampler.native->0 },
            ),
            forall|i: int| 0 <= i < at ==> (#[trigger] samplers@[i]).native is Some,
            refs@ == goal.take(at as int),
        decreases samplers@.len() - at,
    {
        match backing::sampler_ref(&samplers[at]) {
            Ok(sampler) => {
                refs.push(sampler);
            },
            Err(error) => {
                assert(samplers@[at as int].native is None);
                return Err(error);
            },
        }
        at += 1;
        assert(refs@ =~= goal.take(at as int));
    }
    assert(goal.take(at as int) =~= goal);
    Ok(refs)
}

fn pack_resource(resource: &BindingResource) -> (result: Result<GlBindingResource, RhiError>)
    ensures
        match packed_resource(*resource) {
            Ok(model) => result is Ok && result->Ok_0@ == model,
            Err(error) => result == Err::<GlBindingResource, _>(error),
        },
{
    match resource {
        BindingResource::Buffer(binding) => {
            let buffer = match backing::buffer_ref(&binding.buffer) {
                Ok(value) => value,
                Err(error) => {
                    return Err(error);
                },
            };
            Ok(
                GlBindingResource::Buffer(
                    GlBufferSpan {
                        buffer,
                        offset: binding.range.offset,
                        size: binding.range.size,
                    },
                ),
            )
        },
        BindingResource::Texture(view) => {
            let view = match backing::view_ref(view) {
                Ok(value) => value,
                Err(error) => {
                    return Err(error);
                },
            };
            Ok(GlBindingResource::Texture(view))
        },
        BindingResource::Sampler(sampler) => {
            let sampler = match backing::sampler_ref(sampler) {
                Ok(value) => value,
                Err(error) => {
                    return Err(error);
                },
            };
            Ok(GlBindingResource::Sampler(sampler))
        },
        BindingResource::BufferArray(bindings) => {
            let spans = match pack_spans(bindings) {
                Ok(value) => value,
                Err(error) => {
                    return Err(error);
                },
            };
            Ok(GlBindingResource::BufferArray(spans))
        },
        BindingResource::TextureArray(views) => {
            let views = match pack_views(views) {
                Ok(value) => value,
                Err(error) => {
                    return Err(error);
                },
            };
            Ok(GlBindingResource::TextureArray(views))
        },
        BindingResource::SamplerArray(samplers) => {
            let samplers = match pack_samplers(samplers) {
                Ok(value) => value,
                Err(error) => {
                    return Err(error);
                },
            };
            Ok(GlBindingResource::SamplerArray(samplers))
        },
        BindingResource::AccelerationStructure | BindingResource::AccelerationStructureArray
        | BindingResource::ExternalTexture => Err(
            RhiError::new(
                RhiErrorKind::Unsupported,
                "this GL backend does not lower acceleration-structure or external-texture bindings",
            ),
        ),
    }
}

/// A bind group by the names of what it binds.
pub fn bind_packet(desc: &BindGroupDescriptor) -> (result: Result<GlBindGroupPacket, RhiError>)
    ensures
        match packed(desc.entries@) {
            Ok(model) => result is Ok && result->Ok_0@ == model,
            Err(error) => result == Err::<GlBindGroupPacket, _>(error),
        },
{
    let mut packet = GlBindGroupPacket { entries: Vec::new() };
    let mut at: usize = 0;
    assert(packet@ =~= Seq::<EntryModel>::empty());
    while at < desc.entries.len()
        invariant
            at <= desc.entries@.len(),
            packed(desc.entries@.take(at as int)) == Ok::<_, RhiError>(packet@),
        decreases desc.entries@.len() - at,
    {
        let entry = &desc.entries[at];
        proof {
            assert(desc.entries@.take(at + 1).drop_last() =~= desc.entries@.take(at as int));
            assert(desc.entries@.take(at + 1).last() == entry);
        }
        match pack_resource(&entry.resource) {
            Ok(resource) => {
                let ghost before = packet@;
                let packed_entry = GlBindGroupEntry { slot: entry.slot, resource };
                let ghost model = packed_entry@;
                packet.entries.push(packed_entry);
                assert(packet@ =~= before.push(model));
            },
            Err(error) => {
                proof {
                    lemma_packed_stops(desc.entries@, at + 1);
                }
                return Err(error);
            },
        }
        at += 1;
    }
    assert(desc.entries@.take(at as int) =~= desc.entries@);
    Ok(packet)
}

fn gather(work: &Vec<RecordedWork>) -> (result: Vec<Arc<RecordedCommand>>)
    ensures
        result@ == all_commands(work@),
{
    let mut result: Vec<Arc<RecordedCommand>> = Vec::new();
    let mut at: usize = 0;
    while at < work.len()
        invariant
            at <= work@.len(),
            result@ == all_commands(work@.take(at as int)),
        decreases work@.len() - at,
    {
        proof {
            assert(work@.take(at + 1).drop_last() =~= work@.take(at as int));
            assert(work@.take(at + 1).last() == work@[at as int]);
        }
        let commands = &work[at].commands;
        let ghost before = result@;
        let mut from: usize = 0;
        assert(result@ =~= before + commands@.take(0));
        while from < commands.len()
            invariant
                from <= commands@.len(),
                result@ == before + commands@.take(from as int),
            decreases commands@.len() - from,
        {
            result.push(Arc::clone(&commands[from]));
            from += 1;
            assert(result@ =~= before + commands@.take(from as int));
        }
        assert(commands@.take(from as int) =~= commands@);
        at += 1;
    }
    assert(work@.take(at as int) =~= work@);
    result
}

/// The submission as the driver gets it: batch by batch, the commands of all
/// its work in order.
pub fn submission_plan(request: &SubmissionRequest) -> (result: GlSubmissionPlan)
    ensures
        result@ == planned(request.batches@),
{
    let mut plan = GlSubmissionPlan { batches: Vec::new() };
    let mut at: usize = 0;
    let ghost goal = planned(request.batches@);
    assert(plan@ =~= goal.take(0));
    while at < request.batches.len()
        invariant
            at <= request.batches@.len(),
            goal == planned(request.batches@),
            plan@ == goal.take(at as int),
        decreases request.batches@.len() - at,
    {
        let batch = &request.batches[at];
        let commands = gather(&batch.work);
        let ghost before = plan@;
        let lowered = GlSubmissionBatch { point: batch.point, commands };
        let ghost model = lowered@;
        plan.batches.push(lowered);
        assert(plan@ =~= before.push(model));
        assert(model == goal[at as int]);
        at += 1;
        assert(plan@ =~= goal.take(at as int));
    }
    assert(goal.take(at as int) =~= goal);
    plan
}

/// The device around one adopted context.
pub struct GlDevice<D, F> {
    pub backend: BackendKind,
    pub adapter: AdapterInfo,
    pub facts: F,
    pub object: ObjectId,
    pub link: DriverLink<D>,
    pub liveness: Liveness,
    pub woken: Vec<u64>,
}

impl<D, F> View for GlDevice<D, F> {
    type V = Device;

    open spec fn view(&self) -> Device {
        Device {
            object: self.object,
            log: self.link@,
            lost: self.liveness.info,
            waiters: self.liveness.waiters@,
            woken: self.woken@,
        }
    }
}

impl<D: GlExecutionDriver, F> GlDevice<D, F> {
    pub open spec fn wf(&self) -> bool {
        self.liveness.wf()
    }

    /// Whether nothing but the state of the device differs.
    pub open spec fn is_same_device(&self, other: Self) -> bool {
        &&& self.backend == other.backend
        &&& self.adapter == other.adapter
        &&& self.facts == other.facts
        &&& self.object == other.object
    }

    /// A device, which asks the driver to be told of losses.
    pub fn new(
        backend: BackendKind,
        adapter: AdapterInfo,
        facts: F,
        object: ObjectId,
        driver: D,
    ) -> (result: Self)
        ensures
            result.wf(),
            result.backend == backend,
            result.adapter == adapter,
            result.facts == facts,
            result.object == object,
            result@ == (Device {
                object,
                log: seq![DriverStep::InstallLossSink { device: object }],
                lost: None,
                waiters: Seq::empty(),
                woken: Seq::empty(),
            }),
    {
        let mut link = DriverLink::new(driver);
        link.install_loss_sink(object);
        let result = GlDevice {
            backend,
            adapter,
            facts,
            object,
            link,
            liveness: Liveness::new(),
            woken: Vec::new(),
        };
        assert(result@ =~= Device {
            object,
            log: seq![DriverStep::InstallLossSink { device: object }],
            lost: None,
            waiters: Seq::empty(),
            woken: Seq::empty(),
        });
        result
    }

    pub fn backend_kind(&self) -> (result: BackendKind)
        ensures
            result == self.backend,
    {
        self.backend
    }

    pub fn adapter_info(&self) -> (result: &AdapterInfo)
        ensures
            *result == self.adapter,
    {
        &self.adapter
    }

    pub fn capability_facts(&self) -> (result: &F)
        ensures
            *result == self.facts,
    {
        &self.facts
    }

    pub fn object_id(&self) -> (result: ObjectId)
        ensures
            result == self.object,
    {
        self.object
    }

    /// GL has one ordered stream of commands. It takes raster and copy work.
    pub fn submission_capabilities(&self) -> (result: Vec<SubmissionLaneInfo>)
        ensures
            result@ == seq![
                SubmissionLaneInfo {
                    id: 0,
                    class: SubmissionLaneClass::General,
                    domains: LaneWorkDomains { raster: true, compute: false, copy: true },
                },
            ],
    {
        let mut lanes: Vec<SubmissionLaneInfo> = Vec::new();
        lanes.push(
            SubmissionLaneInfo {
                id: 0,
                class: SubmissionLaneClass::General,
                domains: LaneWorkDomains { raster: true, compute: false, copy: true },
            },
        );
        lanes
    }

    pub fn status(&self) -> (result: DeviceStatus)
        requires
            self.wf(),
        ensures
            result == (if self@.lost is Some {
                DeviceStatus::Lost
            } else {
                DeviceStatus::Active
            }),
    {
        self.liveness.status
    }

    pub fn loss_info(&self) -> (result: Option<DeviceLossInfo>)
        ensures
            result == self@.lost,
    {
        match &self.liveness.info {
            Some(info) => Some(info.share()),
            None => None,
        }
    }

    /// A GL device can always be asked to present; a driver that cannot says
    /// so for each target.
    pub fn presentation(&self) -> (result: bool)
        ensures
            result,
    {
        true
    }

    /// Notes a loss that somebody else noticed.
    pub fn report_context_loss(&mut self, info: DeviceLossInfo) -> (result: bool)
        requires
            old(self).wf(),
        ensures
            final(self).wf(),
            final(self).is_same_device(*old(self)),
            final(self)@ == old(self)@.reported(info),
            result == (old(self)@.lost is None),
    {
        match self.liveness.report(info) {
            None => false,
            Some(mut waiters) => {
                let ghost before = self.woken@;
                let ghost added = waiters@;
                self.woken.append(&mut waiters);
                assert(self.woken@ =~= before + added);
                assert(self@.waiters =~= Seq::<u64>::empty());
                true
            },
        }
    }

    /// Notes a loss, and tells the driver the first time.
    pub fn note_loss(&mut self, info: DeviceLossInfo)
        requires
            old(self).wf(),
        ensures
            final(self).wf(),
            final(self).is_same_device(*old(self)),
            final(self)@ == old(self)@.mark_lost(info),
    {
        if self.report_context_loss(info.share()) {
            self.link.device_lost(&info);
        }
    }

    /// Notes a loss with a message.
    pub fn mark_lost(&mut self, message: Message)
        requires
            old(self).wf(),
        ensures
            final(self).wf(),
            final(self).is_same_device(*old(self)),
            final(self)@ == old(self)@.mark_lost(
                DeviceLossInfo { cause: RhiDetail::Message(message) },
            ),
    {
        self.note_loss(DeviceLossInfo::new(message));
    }

    /// Whether the device is alive.
    pub fn active(&self, operation: &'static str) -> (result: Result<(), RhiError>)
        ensures
            result == self@.active(operation),
    {
        match &self.liveness.info {
            None => Ok(()),
            Some(info) => Err(
                RhiError::because(RhiErrorKind::DeviceLost, info.cause.share()).at(operation),
            ),
        }
    }

    /// Passes an answer of the driver on. A loss in it ends the device.
    pub fn observe<T>(&mut self, reply: Result<T, RhiError>, operation: &'static str) -> (result:
        Result<T, RhiError>)
        requires
            old(self).wf(),
        ensures
            final(self).wf(),
            final(self).is_same_device(*old(self)),
            driver::grows(old(self)@.log, final(self)@.log),
            forall|o: Seq<DriverStep>|
                driver::grows(final(self)@.log, o) ==> #[trigger] old(self)@.observe(reply, operation, o) == (
                    final(self)@,
                    result,
                ),
    {
        match reply {
            Ok(value) => Ok(value),
            Err(error) => {
                if error.kind() == RhiErrorKind::DeviceLost {
                    self.note_loss(DeviceLossInfo::because(error.detail.share()));
                }
                Err(error.at(operation))
            },
        }
    }

    fn observe_name(
        &mut self,
        reply: Result<GlObjectName, RhiError>,
        kind: GlObjectKind,
        operation: &'static str,
    ) -> (result: Result<GlNative, RhiError>)
        requires
            old(self).wf(),
        ensures
            final(self).wf(),
            final(self).is_same_device(*old(self)),
            driver::grows(old(self)@.log, final(self)@.log),
            forall|o: Seq<DriverStep>|
                driver::grows(final(self)@.log, o) ==> #[trigger] old(self)@.observe_name(reply, kind, operation, o) == (
                    final(self)@,
                    result,
                ),
    {
        match self.observe(reply, operation) {
            Ok(name) => Ok(GlNative { kind, name }),
            Err(error) => Err(error),
        }
    }

    pub fn poll(&mut self) -> (result: Result<(), RhiError>)
        requires
            old(self).wf(),
        ensures
            final(self).wf(),
            final(self).is_same_device(*old(self)),
            driver::grows(old(self)@.log, final(self)@.log),
            forall|o: Seq<DriverStep>|
                driver::grows(final(self)@.log, o) ==> #[trigger] old(self)@.poll(o) == (
                    final(self)@,
                    result,
                ),
    {
        match self.active("GlDevice::poll") {
            Ok(()) => {},
            Err(error) => {
                return Err(error);
            },
        }
        let reply = self.link.poll();
        self.observe(reply, "GlDevice::poll")
    }

    pub fn wait_idle(&mut self) -> (result: Result<(), RhiError>)
        requires
            old(self).wf(),
        ensures
            final(self).wf(),
            final(self).is_same_device(*old(self)),
            driver::grows(old(self)@.log, final(self)@.log),
            forall|o: Seq<DriverStep>|
                driver::grows(final(self)@.log, o) ==> #[trigger] old(self)@.wait_idle(o) == (
                    final(self)@,
                    result,
                ),
    {
        match self.active("GlDevice::wait_idle") {
            Ok(()) => {},
            Err(error) => {
                return Err(error);
            },
        }
        let reply = self.link.wait_idle();
        self.observe(reply, "GlDevice::wait_idle")
    }

    pub fn create_buffer(&mut self, desc: &BufferDescriptor) -> (result: Result<GlNative, RhiError>)
        requires
            old(self).wf(),
        ensures
            final(self).wf(),
            final(self).is_same_device(*old(self)),
            driver::grows(old(self)@.log, final(self)@.log),
            forall|o: Seq<DriverStep>|
                driver::grows(final(self)@.log, o) ==> #[trigger] old(self)@.create_buffer(*desc, o) == (
                    final(self)@,
                    result,
                ),
    {
        match self.active("GlDevice::create_buffer") {
            Ok(()) => {},
            Err(error) => {
                return Err(error);
            },
        }
        let reply = self.link.create_buffer(desc);
        self.observe_name(reply, GlObjectKind::Buffer, "GlDevice::create_buffer")
    }

    pub fn create_query_set(&mut self, desc: &QuerySetDescriptor) -> (result: Result<GlNative, RhiError>)
        requires
            old(self).wf(),
        ensures
            final(self).wf(),
            final(self).is_same_device(*old(self)),
            driver::grows(old(self)@.log, final(self)@.log),
            forall|o: Seq<DriverStep>|
                driver::grows(final(self)@.log, o) ==> #[trigger] old(self)@.create_query_set(*desc, o) == (
                    final(self)@,
                    result,
                ),
    {
        match self.active("GlDevice::create_query_set") {
            Ok(()) => {},
            Err(error) => {
                return Err(error);
            },
        }
        let reply = self.link.create_query_set(desc);
        self.observe_name(reply, GlObjectKind::QuerySet, "GlDevice::create_query_set")
    }

    pub fn create_texture(&mut self, desc: &TextureDescriptor) -> (result: Result<GlNative, RhiError>)
        requires
            old(self).wf(),
        ensures
            final(self).wf(),
            final(self).is_same_device(*old(self)),
            driver::grows(old(self)@.log, final(self)@.log),
            forall|o: Seq<DriverStep>|
                driver::grows(final(self)@.log, o) ==> #[trigger] old(self)@.create_texture(*desc, o) == (
                    final(self)@,
                    result,
                ),
    {
        match self.active("GlDevice::create_texture") {
            Ok(()) => {},
            Err(error) => {
                return Err(error);
            },
        }
        let reply = self.link.create_texture(desc);
        self.observe_name(reply, GlObjectKind::Texture, "GlDevice::create_texture")
    }

    pub fn create_sampler(&mut self, desc: &SamplerDescriptor) -> (result: Result<GlNative, RhiError>)
        requires
            old(self).wf(),
        ensures
            final(self).wf(),
            final(self).is_same_device(*old(self)),
            driver::grows(old(self)@.log, final(self)@.log),
            forall|o: Seq<DriverStep>|
                driver::grows(final(self)@.log, o) ==> #[trigger] old(self)@.create_sampler(*desc, o) == (
                    final(self)@,
                    result,
                ),
    {
        match self.active("GlDevice::create_sampler") {
            Ok(()) => {},
            Err(error) => {
                return Err(error);
            },
        }
        let reply = self.link.create_sampler(desc);
        self.observe_name(reply, GlObjectKind::Sampler, "GlDevice::create_sampler")
    }

    pub fn create_shader(&mut self, artifact: &ShaderArtifact) -> (result: Result<GlNative, RhiError>)
        requires
            old(self).wf(),
        ensures
            final(self).wf(),
            final(self).is_same_device(*old(self)),
            driver::grows(old(self)@.log, final(self)@.log),
            forall|o: Seq<DriverStep>|
                driver::grows(final(self)@.log, o) ==> #[trigger] old(self)@.create_shader(*artifact, o) == (
                    final(self)@,
                    result,
                ),
    {
        match self.active("GlDevice::create_shader") {
            Ok(()) => {},
            Err(error) => {
                return Err(error);
            },
        }
        let reply = self.link.create_shader(artifact);
        self.observe_name(reply, GlObjectKind::Shader, "GlDevice::create_shader")
    }

    pub fn presentation_capabilities(&mut self, target: ObjectId) -> (result: Result<PresentationTargetCapabilities, RhiError>)
        requires
            old(self).wf(),
        ensures
            final(self).wf(),
            final(self).is_same_device(*old(self)),
            driver::grows(old(self)@.log, final(self)@.log),
            forall|o: Seq<DriverStep>|
                driver::grows(final(self)@.log, o) ==> #[trigger] old(self)@.presentation_capabilities(target, o) == (
                    final(self)@,
                    result,
                ),
    {
        match self.active("GlDevice::presentation_capabilities") {
            Ok(()) => {},
            Err(error) => {
                return Err(error);
            },
        }
        let reply = self.link.presentation_capabilities(target);
        self.observe(reply, "GlDevice::presentation_capabilities")
    }

    pub fn configure_presentation(&mut self, target: ObjectId) -> (result: Result<GlPresentationLease, RhiError>)
        requires
            old(self).wf(),
        ensures
            final(self).wf(),
            final(self).is_same_device(*old(self)),
            driver::grows(old(self)@.log, final(self)@.log),
            forall|o: Seq<DriverStep>|
                driver::grows(final(self)@.log, o) ==> #[trigger] old(self)@.configure_presentation(target, o) == (
                    final(self)@,
                    result,
                ),
    {
        match self.active("GlDevice::configure_presentation") {
            Ok(()) => {},
            Err(error) => {
                return Err(error);
            },
        }
        let reply = self.link.configure_presentation(target);
        self.observe(reply, "GlDevice::configure_presentation")
    }

    pub fn present_state(&mut self, receipt: u64) -> (result: Result<PresentState, RhiError>)
        requires
            old(self).wf(),
        ensures
            final(self).wf(),
            final(self).is_same_device(*old(self)),
            driver::grows(old(self)@.log, final(self)@.log),
            forall|o: Seq<DriverStep>|
                driver::grows(final(self)@.log, o) ==> #[trigger] old(self)@.present_state(receipt, o) == (
                    final(self)@,
                    result,
                ),
    {
        match self.active("GlDevice::present_state") {
            Ok(()) => {},
            Err(error) => {
                return Err(error);
            },
        }
        let reply = self.link.present_state(receipt);
        self.observe(reply, "GlDevice::present_state")
    }

    pub fn present_state_or_register_waker(&mut self, receipt: u64, waiter: u64) -> (result: Result<PresentState, RhiError>)
        requires
            old(self).wf(),
        ensures
            final(self).wf(),
            final(self).is_same_device(*old(self)),
            driver::grows(old(self)@.log, final(self)@.log),
            forall|o: Seq<DriverStep>|
                driver::grows(final(self)@.log, o) ==> #[trigger] old(self)@.present_state_or_register_waker(receipt, waiter, o) == (
                    final(self)@,
                    result,
                ),
    {
        match self.active("GlDevice::present_state_or_register_waker") {
            Ok(()) => {},
            Err(error) => {
                return Err(error);
            },
        }
        let reply = self.link.present_state_or_register_waker(receipt, waiter);
        self.observe(reply, "GlDevice::present_state_or_register_waker")
    }

    pub fn map_buffer(&mut self, buffer: &Buffer, mode: MapMode, range: BufferRange) -> (result:
        Result<u64, RhiError>)
        requires
            old(self).wf(),
        ensures
            final(self).wf(),
            final(self).is_same_device(*old(self)),
            driver::grows(old(self)@.log, final(self)@.log),
            forall|o: Seq<DriverStep>|
                driver::grows(final(self)@.log, o) ==> #[trigger] old(self)@.map_buffer(*buffer, mode, range, o) == (
                    final(self)@,
                    result,
                ),
    {
        let operation = "GlDevice::map_buffer";
        match self.active(operation) {
            Ok(()) => {},
            Err(error) => {
                return Err(error);
            },
        }
        let native = match backing::buffer_ref(buffer) {
            Ok(native) => native,
            Err(error) => {
                return Err(error.at(operation));
            },
        };
        let reply = self.link.map_buffer(native, mode, range);
        self.observe(reply, operation)
    }

    pub fn create_texture_view(&mut self, texture: &Texture, desc: &TextureViewDescriptor) -> (
    result: Result<GlNative, RhiError>)
        requires
            old(self).wf(),
        ensures
            final(self).wf(),
            final(self).is_same_device(*old(self)),
            driver::grows(old(self)@.log, final(self)@.log),
            forall|o: Seq<DriverStep>|
                driver::grows(final(self)@.log, o) ==> #[trigger] old(self)@.create_texture_view(*texture, *desc, o) == (
                    final(self)@,
                    result,
                ),
    {
        let operation = "GlDevice::create_texture_view";
        match self.active(operation) {
            Ok(()) => {},
            Err(error) => {
                return Err(error);
            },
        }
        let native = match backing::texture_ref(texture) {
            Ok(native) => native,
            Err(error) => {
                return Err(error.at(operation));
            },
        };
        let reply = self.link.create_texture_view(native, desc);
        self.observe_name(reply, GlObjectKind::TextureView, operation)
    }

    pub fn create_bind_group(&mut self, desc: &BindGroupDescriptor) -> (result: Result<
        GlNative,
        RhiError,
    >)
        requires
            old(self).wf(),
        ensures
            final(self).wf(),
            final(self).is_same_device(*old(self)),
            driver::grows(old(self)@.log, final(self)@.log),
            forall|o: Seq<DriverStep>|
                driver::grows(final(self)@.log, o) ==> #[trigger] old(self)@.create_bind_group(desc.entries@, o) == (
                    final(self)@,
                    result,
                ),
    {
        let operation = "GlDevice::create_bind_group";
        match self.active(operation) {
            Ok(()) => {},
            Err(error) => {
                return Err(error);
            },
        }
        let packet = match bind_packet(desc) {
            Ok(packet) => packet,
            Err(error) => {
                return Err(error.at(operation));
            },
        };
        let reply = self.link.create_bind_group(Arc::new(packet));
        self.observe_name(reply, GlObjectKind::BindGroup, operation)
    }

    pub fn create_compute_pipeline(&mut self, desc: &ComputePipelineDescriptor) -> (result: Result<
        GlNative,
        RhiError,
    >)
        requires
            old(self).wf(),
        ensures
            final(self).wf(),
            final(self).is_same_device(*old(self)),
            driver::grows(old(self)@.log, final(self)@.log),
            forall|o: Seq<DriverStep>|
                driver::grows(final(self)@.log, o) ==> #[trigger] old(self)@.create_compute_pipeline(*desc, o) == (
                    final(self)@,
                    result,
                ),
    {
        let operation = "GlDevice::create_compute_pipeline";
        match self.active(operation) {
            Ok(()) => {},
            Err(error) => {
                return Err(error);
            },
        }
        let shader = match backing::shader_ref(&desc.shader) {
            Ok(shader) => shader,
            Err(error) => {
                return Err(error.at(operation));
            },
        };
        let reply = self.link.create_compute_pipeline(desc, shader);
        self.observe_name(reply, GlObjectKind::ComputePipeline, operation)
    }

    pub fn create_raster_pipeline(&mut self, desc: &RasterPipelineDescriptor) -> (result: Result<
        GlNative,
        RhiError,
    >)
        requires
            old(self).wf(),
        ensures
            final(self).wf(),
            final(self).is_same_device(*old(self)),
            driver::grows(old(self)@.log, final(self)@.log),
            forall|o: Seq<DriverStep>|
                driver::grows(final(self)@.log, o) ==> #[trigger] old(self)@.create_raster_pipeline(*desc, o) == (
                    final(self)@,
                    result,
                ),
    {
        let operation = "GlDevice::create_raster_pipeline";
        match self.active(operation) {
            Ok(()) => {},
            Err(error) => {
                return Err(error);
            },
        }
        let vertex = match backing::shader_ref(&desc.vertex) {
            Ok(shader) => shader,
            Err(error) => {
                return Err(error.at(operation));
            },
        };
        let fragment = match &desc.fragment {
            None => None,
            Some(module) => match backing::shader_ref(module) {
                Ok(shader) => Some(shader),
                Err(error) => {
                    return Err(error.at(operation));
                },
            },
        };
        let reply = self.link.create_raster_pipeline(desc, vertex, fragment);
        self.observe_name(reply, GlObjectKind::RasterPipeline, operation)
    }

    pub fn submit(&mut self, request: &SubmissionRequest) -> (result: Result<
        SubmissionOutcome,
        RhiError,
    >)
        requires
            old(self).wf(),
        ensures
            final(self).wf(),
            final(self).is_same_device(*old(self)),
            driver::grows(old(self)@.log, final(self)@.log),
            forall|o: Seq<DriverStep>|
                driver::grows(final(self)@.log, o) ==> #[trigger] old(self)@.submit(request.batches@, o) == (
                    final(self)@,
                    result,
                ),
    {
        match self.active("GlDevice::submit") {
            Ok(()) => {},
            Err(error) => {
                return Err(error);
            },
        }
        let plan = submission_plan(request);
        let reply = self.link.submit(&plan);
        self.observe(reply, "GlDevice::submit")
    }

    /// Notes losses that somebody else noticed and told the driver of.
    pub fn hear_losses(&mut self, losses: &Vec<DeviceLossInfo>)
        requires
            old(self).wf(),
        ensures
            final(self).wf(),
            final(self).is_same_device(*old(self)),
            final(self)@ == old(self)@.told(losses@),
    {
        if losses.len() > 0 {
            let _ = self.report_context_loss(losses[0].share());
        }
    }

    /// Lets the driver tell of the losses that it met.
    pub fn hear(&mut self)
        requires
            old(self).wf(),
        ensures
            final(self).wf(),
            final(self).is_same_device(*old(self)),
            driver::grows(old(self)@.log, final(self)@.log),
            forall|o: Seq<DriverStep>|
                driver::grows(final(self)@.log, o) ==> #[trigger] old(self)@.hearing(o)
                    == final(self)@,
    {
        let object = self.object;
        let losses = self.link.take_losses(object);
        self.hear_losses(&losses);
    }

    fn see(&mut self, state: CompletionState) -> (result: CompletionState)
        requires
            old(self).wf(),
        ensures
            final(self).wf(),
            final(self).is_same_device(*old(self)),
            (final(self)@, result) == old(self)@.seeing(state),
    {
        match state {
            CompletionState::DeviceLost(info) => {
                self.note_loss(info.share());
                match self.loss_info() {
                    Some(kept) => CompletionState::DeviceLost(kept),
                    None => CompletionState::DeviceLost(info),
                }
            },
            state => state,
        }
    }

    pub fn completion(&mut self, serial: u64) -> (result: CompletionState)
        requires
            old(self).wf(),
        ensures
            final(self).wf(),
            final(self).is_same_device(*old(self)),
            driver::grows(old(self)@.log, final(self)@.log),
            forall|o: Seq<DriverStep>|
                driver::grows(final(self)@.log, o) ==> #[trigger] old(self)@.completion(serial, o) == (
                    final(self)@,
                    result,
                ),
    {
        match self.loss_info() {
            Some(info) => CompletionState::DeviceLost(info),
            None => {
                let state = self.link.completion(serial);
                self.hear();
                self.see(state)
            },
        }
    }

    pub fn completion_or_register_waker(&mut self, serial: u64, waiter: u64) -> (result:
        CompletionState)
        requires
            old(self).wf(),
        ensures
            final(self).wf(),
            final(self).is_same_device(*old(self)),
            driver::grows(old(self)@.log, final(self)@.log),
            forall|o: Seq<DriverStep>|
                driver::grows(final(self)@.log, o) ==> #[trigger] old(self)@.completion_or_register_waker(serial, waiter, o) == (
                    final(self)@,
                    result,
                ),
    {
        match self.loss_info() {
            Some(info) => CompletionState::DeviceLost(info),
            None => {
                let state = self.link.completion_or_register_waker(serial, waiter);
                self.hear();
                match state {
                    CompletionState::Pending => {
                        self.liveness.waiters.push(waiter);
                        CompletionState::Pending
                    },
                    state => self.see(state),
                }
            },
        }
    }

    /// Gives a native object up. Its owner destroys it.
    pub fn release(&mut self, native: GlNative)
        requires
            old(self).wf(),
        ensures
            final(self).wf(),
            final(self).is_same_device(*old(self)),
            final(self)@ == old(self)@.asked(
                DriverStep::Destroy { kind: native.kind, name: native.name },
            ),
    {
        self.link.destroy(native.kind, native.name);
    }
}

} // verus!
