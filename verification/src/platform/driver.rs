//! The seam between a portable device and the owner of its context.
//!
//! A context belongs to one thread. Implementors bring each call to that
//! thread and report success only for what reached the context. The library
//! assumes nothing of their answers, and records what it asked.

use vstd::prelude::*;
use std::sync::Arc;
use crate::api::command::{
    BatchModel, GlAcquiredFramebuffer, GlPresentationLease, GlSubmissionPlan,
};
use crate::api::error;
use crate::api::error::{
    CompletionFailure, CompletionState, DeviceLossInfo, RhiError, RhiErrorKind,
};
use crate::api::identity::ObjectId;
use crate::api::pipeline::{ComputePipelineDescriptor, RasterPipelineDescriptor};
use crate::api::resource::{
    BufferDescriptor, BufferRange, MapMode, QuerySetDescriptor, SamplerDescriptor,
    TextureDescriptor, TextureViewDescriptor,
};
use crate::api::shader::ShaderArtifact;
use crate::native::execute::SubmissionOutcome;
use crate::native::owner::PresentState;
use crate::native::present::{
    AcquireDetail, AcquireError, AcquireErrorKind, PresentationTargetCapabilities, Progress,
};
use crate::platform::object::{
    EntryModel, GlBindGroupPacket, GlBufferRef, GlObjectKind, GlObjectName, GlShaderRef,
    GlTextureRef,
};

verus! {

/// The refusal of an operation that a driver does not bring.
pub open spec fn unsupported_by_driver(operation: &'static str) -> RhiError {
    error::rhi_error_at(
        RhiErrorKind::Unsupported,
        "the adopted GL driver did not install this v13 lowering",
        operation,
    )
}

fn unsupported<T>(operation: &'static str) -> (result: Result<T, RhiError>)
    ensures
        result == Err::<T, _>(unsupported_by_driver(operation)),
{
    Err(
        RhiError::new(
            RhiErrorKind::Unsupported,
            "the adopted GL driver did not install this v13 lowering",
        ).at(operation),
    )
}

/// The refusal of an idle wait by a driver that brings none.
pub open spec fn no_idle_wait() -> RhiError {
    error::rhi_error(
        RhiErrorKind::Unsupported,
        "the adopted GL driver has no verified idle wait route",
    )
}

/// The refusal of a frame by a driver that shows nothing.
pub open spec fn without_framebuffer() -> AcquireError {
    AcquireError {
        kind: AcquireErrorKind::NotReady,
        detail: AcquireDetail::Text("the adopted GL driver has no acquired framebuffer"),
    }
}

fn no_framebuffer() -> (result: AcquireError)
    ensures
        result == without_framebuffer(),
{
    AcquireError {
        kind: AcquireErrorKind::NotReady,
        detail: AcquireDetail::Text("the adopted GL driver has no acquired framebuffer"),
    }
}

/// One question to the driver, and its answer.
#[allow(inconsistent_fields)]
pub enum DriverStep {
    /// In this step an operation was sent to the owner.
    Dispatch { operation: &'static str, reply: Result<(), RhiError> },
    /// In this step a device asked to be told of losses.
    InstallLossSink { device: ObjectId },
    /// In this step a device asked for the losses that the driver met.
    TakeLosses { device: ObjectId, reply: Seq<DeviceLossInfo> },
    /// In this step a buffer was made.
    CreateBuffer { desc: BufferDescriptor, reply: Result<GlObjectName, RhiError> },
    /// In this step a texture was made.
    CreateTexture { desc: TextureDescriptor, reply: Result<GlObjectName, RhiError> },
    /// In this step a view was made.
    CreateTextureView { texture: GlTextureRef, desc: TextureViewDescriptor, reply: Result<GlObjectName, RhiError> },
    /// In this step a sampler was made.
    CreateSampler { desc: SamplerDescriptor, reply: Result<GlObjectName, RhiError> },
    /// In this step a query set was made.
    CreateQuerySet { desc: QuerySetDescriptor, reply: Result<GlObjectName, RhiError> },
    /// In this step a shader was made.
    CreateShader { artifact: ShaderArtifact, reply: Result<GlObjectName, RhiError> },
    /// In this step a bind group was made.
    CreateBindGroup { packet: Seq<EntryModel>, reply: Result<GlObjectName, RhiError> },
    /// In this step a compute pipeline was made.
    CreateComputePipeline { desc: ComputePipelineDescriptor, shader: GlShaderRef, reply: Result<GlObjectName, RhiError> },
    /// In this step a raster pipeline was made.
    CreateRasterPipeline { desc: RasterPipelineDescriptor, vertex: GlShaderRef, fragment: Option<GlShaderRef>, reply: Result<GlObjectName, RhiError> },
    /// In this step a buffer was mapped.
    MapBuffer { buffer: GlBufferRef, mode: MapMode, range: BufferRange, reply: Result<u64, RhiError> },
    /// In this step a submission was handed over.
    Submit { batches: Seq<BatchModel>, reply: Result<SubmissionOutcome, RhiError> },
    /// In this step a submission was asked for.
    Completion { serial: u64, reply: CompletionState },
    /// In this step a submission was asked for, to be waited for.
    AwaitCompletion { serial: u64, waiter: u64, reply: CompletionState },
    /// In this step an object was given up.
    Destroy { kind: GlObjectKind, name: GlObjectName },
    /// In this step the owner was polled.
    Poll { reply: Result<(), RhiError> },
    /// In this step the owner was asked to wait.
    WaitIdle { reply: Result<(), RhiError> },
    /// In this step whether a target can be shown was asked for.
    SupportsPresentation { target: ObjectId, reply: Result<bool, RhiError> },
    /// In this step what a target can show was asked for.
    PresentationCapabilities { target: ObjectId, reply: Result<PresentationTargetCapabilities, RhiError> },
    /// In this step a target was configured.
    ConfigurePresentation { target: ObjectId, reply: Result<GlPresentationLease, RhiError> },
    /// In this step what a drawable can show was asked for.
    LeaseCapabilities { lease: GlPresentationLease, reply: Result<PresentationTargetCapabilities, RhiError> },
    /// In this step a drawable was configured again, to be waited for.
    Reconfigure { lease: GlPresentationLease, waiter: u64, reply: Progress<Result<(), RhiError>> },
    /// In this step a frame was asked for.
    TryAcquire { lease: GlPresentationLease, reply: Result<Option<GlAcquiredFramebuffer>, AcquireError> },
    /// In this step a frame was asked for, to be waited for.
    AwaitFrame { lease: GlPresentationLease, waiter: u64, reply: Progress<Result<GlAcquiredFramebuffer, AcquireError>> },
    /// In this step a frame was dropped.
    Abandon { lease: GlPresentationLease, reply: Result<(), RhiError> },
    /// In this step a drawable was given up.
    Release { lease: GlPresentationLease },
    /// In this step a frame was shown.
    Present { frame: GlAcquiredFramebuffer, receipt: u64 },
    /// In this step a frame was ended.
    TerminatePresent { frame: GlAcquiredFramebuffer, receipt: u64, state: PresentState },
    /// In this step a receipt was asked for.
    PresentStateOf { receipt: u64, reply: Result<PresentState, RhiError> },
    /// In this step a receipt was asked for, to be waited for.
    AwaitPresent { receipt: u64, waiter: u64, reply: Result<PresentState, RhiError> },
    /// In this step the loss of the device was told.
    DeviceLost { info: DeviceLossInfo },
}

/// Whether the second record begins with the first.
pub open spec fn grows(before: Seq<DriverStep>, after: Seq<DriverStep>) -> bool {
    before.len() <= after.len() && forall|i: int|
        0 <= i < before.len() ==> before[i] == #[trigger] after[i]
}

/// What brings the calls of a device to the owner of its context.
pub trait GlExecutionDriver: Sized {
    fn dispatch(&mut self, operation: &'static str) -> Result<(), RhiError>;

    /// Lets a device know of the losses that the driver meets from now on.
    fn install_loss_sink(&mut self, device: ObjectId)
        default_ensures
            *final(self) == *old(self),
    {
    }

    /// Hands over the losses that this device has not been told of yet, the
    /// first one first.
    fn take_losses(&mut self, device: ObjectId) -> (reply: Vec<DeviceLossInfo>)
        default_ensures
            *final(self) == *old(self),
            reply@ == Seq::<DeviceLossInfo>::empty(),
    {
        Vec::new()
    }

    fn create_buffer(&mut self, desc: &BufferDescriptor) -> (reply: Result<GlObjectName, RhiError>)
        default_ensures
            *final(self) == *old(self),
            reply == Err::<GlObjectName, _>(unsupported_by_driver("create_buffer")),
    {
        unsupported("create_buffer")
    }

    fn create_texture(&mut self, desc: &TextureDescriptor) -> (reply: Result<GlObjectName, RhiError>)
        default_ensures
            *final(self) == *old(self),
            reply == Err::<GlObjectName, _>(unsupported_by_driver("create_texture")),
    {
        unsupported("create_texture")
    }

    fn create_texture_view(&mut self, texture: GlTextureRef, desc: &TextureViewDescriptor) -> (reply: Result<GlObjectName, RhiError>)
        default_ensures
            *final(self) == *old(self),
            reply == Err::<GlObjectName, _>(unsupported_by_driver("create_texture_view")),
    {
        unsupported("create_texture_view")
    }

    fn create_sampler(&mut self, desc: &SamplerDescriptor) -> (reply: Result<GlObjectName, RhiError>)
        default_ensures
            *final(self) == *old(self),
            reply == Err::<GlObjectName, _>(unsupported_by_driver("create_sampler")),
    {
        unsupported("create_sampler")
    }

    fn create_query_set(&mut self, desc: &QuerySetDescriptor) -> (reply: Result<GlObjectName, RhiError>)
        default_ensures
            *final(self) == *old(self),
            reply == Err::<GlObjectName, _>(unsupported_by_driver("create_query_set")),
    {
        unsupported("create_query_set")
    }

    fn create_shader(&mut self, artifact: &ShaderArtifact) -> (reply: Result<GlObjectName, RhiError>)
        default_ensures
            *final(self) == *old(self),
            reply == Err::<GlObjectName, _>(unsupported_by_driver("create_shader")),
    {
        unsupported("create_shader")
    }

    fn create_bind_group(&mut self, packet: Arc<GlBindGroupPacket>) -> (reply: Result<GlObjectName, RhiError>)
        default_ensures
            *final(self) == *old(self),
            reply == Err::<GlObjectName, _>(unsupported_by_driver("create_bind_group")),
    {
        unsupported("create_bind_group")
    }

    fn create_compute_pipeline(&mut self, desc: &ComputePipelineDescriptor, shader: GlShaderRef) -> (reply: Result<GlObjectName, RhiError>)
        default_ensures
            *final(self) == *old(self),
            reply == Err::<GlObjectName, _>(unsupported_by_driver("create_compute_pipeline")),
    {
        unsupported("create_compute_pipeline")
    }

    fn create_raster_pipeline(&mut self, desc: &RasterPipelineDescriptor, vertex: GlShaderRef, fragment: Option<GlShaderRef>) -> (reply: Result<GlObjectName, RhiError>)
        default_ensures
            *final(self) == *old(self),
            reply == Err::<GlObjectName, _>(unsupported_by_driver("create_raster_pipeline")),
    {
        unsupported("create_raster_pipeline")
    }

    fn map_buffer(&mut self, buffer: GlBufferRef, mode: MapMode, range: BufferRange) -> (reply: Result<u64, RhiError>)
        default_ensures
            *final(self) == *old(self),
            reply == Err::<u64, _>(unsupported_by_driver("map_buffer")),
    {
        unsupported("map_buffer")
    }

    fn submit(&mut self, plan: &GlSubmissionPlan) -> (reply: Result<SubmissionOutcome, RhiError>)
        default_ensures
            *final(self) == *old(self),
            reply == Err::<SubmissionOutcome, _>(unsupported_by_driver("submit")),
    {
        unsupported("submit")
    }

    fn completion(&mut self, serial: u64) -> (reply: CompletionState)
        default_ensures
            *final(self) == *old(self),
            reply == CompletionState::Failed(CompletionFailure::NeverAccepted { serial }),
    {
        CompletionState::Failed(CompletionFailure::NeverAccepted { serial })
    }

    /// The state of a submission. An implementor that can wake a waiter does so
    /// once the state changes; without one, the state is only asked for.
    fn completion_or_register_waker(&mut self, serial: u64, waiter: u64) -> (reply: CompletionState)
        default_ensures
            exists|asked: &mut Self|
                {
                    &&& *asked == *old(self)
                    &&& *final(asked) == *final(self)
                    &&& #[trigger] call_ensures(Self::completion, (asked, serial), reply)
                },
    {
        self.completion(serial)
    }

    fn destroy(&mut self, kind: GlObjectKind, name: GlObjectName)
        default_ensures
            *final(self) == *old(self),
    {
    }

    /// Sends the owner an operation of that name.
    fn poll(&mut self) -> (reply: Result<(), RhiError>)
        default_ensures
            exists|asked: &mut Self|
                {
                    &&& *asked == *old(self)
                    &&& *final(asked) == *final(self)
                    &&& #[trigger] call_ensures(Self::dispatch, (asked, "GlExecutionDriver::poll"), reply)
                },
    {
        self.dispatch("GlExecutionDriver::poll")
    }

    fn wait_idle(&mut self) -> (reply: Result<(), RhiError>)
        default_ensures
            *final(self) == *old(self),
            reply == Err::<(), _>(no_idle_wait()),
    {
        Err(
            RhiError::new(
                RhiErrorKind::Unsupported,
                "the adopted GL driver has no verified idle wait route",
            ),
        )
    }

    fn supports_presentation(&mut self, target: ObjectId) -> (reply: Result<bool, RhiError>)
        default_ensures
            *final(self) == *old(self),
            reply == Ok::<_, RhiError>(false),
    {
        Ok(false)
    }

    fn presentation_capabilities(&mut self, target: ObjectId) -> (reply: Result<PresentationTargetCapabilities, RhiError>)
        default_ensures
            *final(self) == *old(self),
            reply == Err::<PresentationTargetCapabilities, _>(unsupported_by_driver("presentation_capabilities")),
    {
        unsupported("presentation_capabilities")
    }

    fn configure_presentation(&mut self, target: ObjectId) -> (reply: Result<GlPresentationLease, RhiError>)
        default_ensures
            *final(self) == *old(self),
            reply == Err::<GlPresentationLease, _>(unsupported_by_driver("configure_presentation")),
    {
        unsupported("configure_presentation")
    }

    fn lease_capabilities(&mut self, lease: GlPresentationLease) -> (reply: Result<PresentationTargetCapabilities, RhiError>)
        default_ensures
            *final(self) == *old(self),
            reply == Err::<PresentationTargetCapabilities, _>(unsupported_by_driver("lease_capabilities")),
    {
        unsupported("lease_capabilities")
    }

    fn reconfigure_or_register_waker(&mut self, lease: GlPresentationLease, waiter: u64) -> (reply: Progress<Result<(), RhiError>>)
        default_ensures
            *final(self) == *old(self),
            reply == Progress::Ready(Err::<(), _>(unsupported_by_driver("reconfigure_presentation"))),
    {
        Progress::Ready(unsupported("reconfigure_presentation"))
    }

    fn try_acquire(&mut self, lease: GlPresentationLease) -> (reply: Result<Option<GlAcquiredFramebuffer>, AcquireError>)
        default_ensures
            *final(self) == *old(self),
            reply == Err::<Option<GlAcquiredFramebuffer>, _>(without_framebuffer()),
    {
        Err(no_framebuffer())
    }

    fn acquire_or_register_waker(&mut self, lease: GlPresentationLease, waiter: u64) -> (reply: Progress<Result<GlAcquiredFramebuffer, AcquireError>>)
        default_ensures
            *final(self) == *old(self),
            reply == Progress::Ready(Err::<GlAcquiredFramebuffer, _>(without_framebuffer())),
    {
        Progress::Ready(Err(no_framebuffer()))
    }

    fn abandon(&mut self, lease: GlPresentationLease) -> (reply: Result<(), RhiError>)
        default_ensures
            *final(self) == *old(self),
            reply == Err::<(), _>(unsupported_by_driver("abandon_frame")),
    {
        unsupported("abandon_frame")
    }

    fn release_presentation(&mut self, lease: GlPresentationLease)
        default_ensures
            *final(self) == *old(self),
    {
    }

    fn present(&mut self, frame: GlAcquiredFramebuffer, receipt: u64)
        default_ensures
            *final(self) == *old(self),
    {
    }

    fn terminate_present(&mut self, frame: GlAcquiredFramebuffer, receipt: u64, state: PresentState)
        default_ensures
            *final(self) == *old(self),
    {
    }

    fn present_state(&mut self, receipt: u64) -> (reply: Result<PresentState, RhiError>)
        default_ensures
            *final(self) == *old(self),
            reply == Err::<PresentState, _>(unsupported_by_driver("present_state")),
    {
        unsupported("present_state")
    }

    fn present_state_or_register_waker(&mut self, receipt: u64, waiter: u64) -> (reply: Result<PresentState, RhiError>)
        default_ensures
            *final(self) == *old(self),
            reply == Err::<PresentState, _>(unsupported_by_driver("present_state_or_register_waker")),
    {
        unsupported("present_state_or_register_waker")
    }

    fn device_lost(&mut self, info: &DeviceLossInfo)
        default_ensures
            *final(self) == *old(self),
    {
    }
}

/// A driver with the record of what it was asked.
pub struct DriverLink<D> {
    driver: D,
    log: Ghost<Seq<DriverStep>>,
}

impl<D> View for DriverLink<D> {
    type V = Seq<DriverStep>;

    closed spec fn view(&self) -> Seq<DriverStep> {
        self.log@
    }
}

impl<D: GlExecutionDriver> DriverLink<D> {
    pub fn new(driver: D) -> (result: Self)
        ensures
            result.spec_driver() == driver,
            result@ == Seq::<DriverStep>::empty(),
    {
        DriverLink { driver, log: Ghost(Seq::empty()) }
    }

    /// The driver that is asked.
    pub closed spec fn spec_driver(&self) -> D {
        self.driver
    }

    pub fn driver(&self) -> (result: &D)
        ensures
            *result == self.spec_driver(),
    {
        &self.driver
    }

    pub fn dispatch(&mut self, operation: &'static str) -> (reply: Result<(), RhiError>)
        ensures
            exists|asked: &mut D|
                {
                    &&& *asked == old(self).spec_driver()
                    &&& *final(asked) == final(self).spec_driver()
                    &&& #[trigger] call_ensures(D::dispatch, (asked, operation), reply)
                },
            final(self)@ == old(self)@.push(DriverStep::Dispatch { operation, reply }),
    {
        let reply = self.driver.dispatch(operation);
        proof {
            self.log@ = self.log@.push(DriverStep::Dispatch { operation, reply });
        }
        reply
    }

    pub fn install_loss_sink(&mut self, device: ObjectId)
        ensures
            exists|asked: &mut D|
                {
                    &&& *asked == old(self).spec_driver()
                    &&& *final(asked) == final(self).spec_driver()
                    &&& #[trigger] call_ensures(D::install_loss_sink, (asked, device), ())
                },
            final(self)@ == old(self)@.push(DriverStep::InstallLossSink { device }),
    {
        self.driver.install_loss_sink(device);
        proof {
            self.log@ = self.log@.push(DriverStep::InstallLossSink { device });
        }
    }

    pub fn take_losses(&mut self, device: ObjectId) -> (reply: Vec<DeviceLossInfo>)
        ensures
            exists|asked: &mut D|
                {
                    &&& *asked == old(self).spec_driver()
                    &&& *final(asked) == final(self).spec_driver()
                    &&& #[trigger] call_ensures(D::take_losses, (asked, device), reply)
                },
            final(self)@ == old(self)@.push(DriverStep::TakeLosses { device, reply: reply@ }),
    {
        let reply = self.driver.take_losses(device);
        proof {
            self.log@ = self.log@.push(DriverStep::TakeLosses { device, reply: reply@ });
        }
        reply
    }

    pub fn create_buffer(&mut self, desc: &BufferDescriptor) -> (reply: Result<GlObjectName, RhiError>)
        ensures
            exists|asked: &mut D|
                {
                    &&& *asked == old(self).spec_driver()
                    &&& *final(asked) == final(self).spec_driver()
                    &&& #[trigger] call_ensures(D::create_buffer, (asked, desc), reply)
                },
            final(self)@ == old(self)@.push(DriverStep::CreateBuffer { desc: *desc, reply }),
    {
        let reply = self.driver.create_buffer(desc);
        proof {
            self.log@ = self.log@.push(DriverStep::CreateBuffer { desc: *desc, reply });
        }
        reply
    }

    pub fn create_texture(&mut self, desc: &TextureDescriptor) -> (reply: Result<GlObjectName, RhiError>)
        ensures
            exists|asked: &mut D|
                {
                    &&& *asked == old(self).spec_driver()
                    &&& *final(asked) == final(self).spec_driver()
                    &&& #[trigger] call_ensures(D::create_texture, (asked, desc), reply)
                },
            final(self)@ == old(self)@.push(DriverStep::CreateTexture { desc: *desc, reply }),
    {
        let reply = self.driver.create_texture(desc);
        proof {
            self.log@ = self.log@.push(DriverStep::CreateTexture { desc: *desc, reply });
        }
        reply
    }

    pub fn create_texture_view(&mut self, texture: GlTextureRef, desc: &TextureViewDescriptor) -> (reply: Result<GlObjectName, RhiError>)
        ensures
            exists|asked: &mut D|
                {
                    &&& *asked == old(self).spec_driver()
                    &&& *final(asked) == final(self).spec_driver()
                    &&& #[trigger] call_ensures(D::create_texture_view, (asked, texture, desc), reply)
                },
            final(self)@ == old(self)@.push(DriverStep::CreateTextureView { texture, desc: *desc, reply }),
    {
        let reply = self.driver.create_texture_view(texture, desc);
        proof {
            self.log@ = self.log@.push(DriverStep::CreateTextureView { texture, desc: *desc, reply });
        }
        reply
    }

    pub fn create_sampler(&mut self, desc: &SamplerDescriptor) -> (reply: Result<GlObjectName, RhiError>)
        ensures
            exists|asked: &mut D|
                {
                    &&& *asked == old(self).spec_driver()
                    &&& *final(asked) == final(self).spec_driver()
                    &&& #[trigger] call_ensures(D::create_sampler, (asked, desc), reply)
                },
            final(self)@ == old(self)@.push(DriverStep::CreateSampler { desc: *desc, reply }),
    {
        let reply = self.driver.create_sampler(desc);
        proof {
            self.log@ = self.log@.push(DriverStep::CreateSampler { desc: *desc, reply });
        }
        reply
    }

    pub fn create_query_set(&mut self, desc: &QuerySetDescriptor) -> (reply: Result<GlObjectName, RhiError>)
        ensures
            exists|asked: &mut D|
                {
                    &&& *asked == old(self).spec_driver()
                    &&& *final(asked) == final(self).spec_driver()
                    &&& #[trigger] call_ensures(D::create_query_set, (asked, desc), reply)
                },
            final(self)@ == old(self)@.push(DriverStep::CreateQuerySet { desc: *desc, reply }),
    {
        let reply = self.driver.create_query_set(desc);
        proof {
            self.log@ = self.log@.push(DriverStep::CreateQuerySet { desc: *desc, reply });
        }
        reply
    }

    pub fn create_shader(&mut self, artifact: &ShaderArtifact) -> (reply: Result<GlObjectName, RhiError>)
        ensures
            exists|asked: &mut D|
                {
                    &&& *asked == old(self).spec_driver()
                    &&& *final(asked) == final(self).spec_driver()
                    &&& #[trigger] call_ensures(D::create_shader, (asked, artifact), reply)
                },
            final(self)@ == old(self)@.push(DriverStep::CreateShader { artifact: *artifact, reply }),
    {
        let reply = self.driver.create_shader(artifact);
        proof {
            self.log@ = self.log@.push(DriverStep::CreateShader { artifact: *artifact, reply });
        }
        reply
    }

    pub fn create_bind_group(&mut self, packet: Arc<GlBindGroupPacket>) -> (reply: Result<GlObjectName, RhiError>)
        ensures
            exists|asked: &mut D|
                {
                    &&& *asked == old(self).spec_driver()
                    &&& *final(asked) == final(self).spec_driver()
                    &&& #[trigger] call_ensures(D::create_bind_group, (asked, packet), reply)
                },
            final(self)@ == old(self)@.push(DriverStep::CreateBindGroup { packet: packet@, reply }),
    {
        let reply = self.driver.create_bind_group(packet);
        proof {
            self.log@ = self.log@.push(DriverStep::CreateBindGroup { packet: packet@, reply });
        }
        reply
    }

    pub fn create_compute_pipeline(&mut self, desc: &ComputePipelineDescriptor, shader: GlShaderRef) -> (reply: Result<GlObjectName, RhiError>)
        ensures
            exists|asked: &mut D|
                {
                    &&& *asked == old(self).spec_driver()
                    &&& *final(asked) == final(self).spec_driver()
                    &&& #[trigger] call_ensures(D::create_compute_pipeline, (asked, desc, shader), reply)
                },
            final(self)@ == old(self)@.push(DriverStep::CreateComputePipeline { desc: *desc, shader, reply }),
    {
        let reply = self.driver.create_compute_pipeline(desc, shader);
        proof {
            self.log@ = self.log@.push(DriverStep::CreateComputePipeline { desc: *desc, shader, reply });
        }
        reply
    }

    pub fn create_raster_pipeline(&mut self, desc: &RasterPipelineDescriptor, vertex: GlShaderRef, fragment: Option<GlShaderRef>) -> (reply: Result<GlObjectName, RhiError>)
        ensures
            exists|asked: &mut D|
                {
                    &&& *asked == old(self).spec_driver()
                    &&& *final(asked) == final(self).spec_driver()
                    &&& #[trigger] call_ensures(D::create_raster_pipeline, (asked, desc, vertex, fragment), reply)
                },
            final(self)@ == old(self)@.push(DriverStep::CreateRasterPipeline { desc: *desc, vertex, fragment, reply }),
    {
        let reply = self.driver.create_raster_pipeline(desc, vertex, fragment);
        proof {
            self.log@ = self.log@.push(DriverStep::CreateRasterPipeline { desc: *desc, vertex, fragment, reply });
        }
        reply
    }

    pub fn map_buffer(&mut self, buffer: GlBufferRef, mode: MapMode, range: BufferRange) -> (reply: Result<u64, RhiError>)
        ensures
            exists|asked: &mut D|
                {
                    &&& *asked == old(self).spec_driver()
                    &&& *final(asked) == final(self).spec_driver()
                    &&& #[trigger] call_ensures(D::map_buffer, (asked, buffer, mode, range), reply)
                },
            final(self)@ == old(self)@.push(DriverStep::MapBuffer { buffer, mode, range, reply }),
    {
        let reply = self.driver.map_buffer(buffer, mode, range);
        proof {
            self.log@ = self.log@.push(DriverStep::MapBuffer { buffer, mode, range, reply });
        }
        reply
    }

    pub fn submit(&mut self, plan: &GlSubmissionPlan) -> (reply: Result<SubmissionOutcome, RhiError>)
        ensures
            exists|asked: &mut D|
                {
                    &&& *asked == old(self).spec_driver()
                    &&& *final(asked) == final(self).spec_driver()
                    &&& #[trigger] call_ensures(D::submit, (asked, plan), reply)
                },
            final(self)@ == old(self)@.push(DriverStep::Submit { batches: plan@, reply }),
    {
        let reply = self.driver.submit(plan);
        proof {
            self.log@ = self.log@.push(DriverStep::Submit { batches: plan@, reply });
        }
        reply
    }

    pub fn completion(&mut self, serial: u64) -> (reply: CompletionState)
        ensures
            exists|asked: &mut D|
                {
                    &&& *asked == old(self).spec_driver()
                    &&& *final(asked) == final(self).spec_driver()
                    &&& #[trigger] call_ensures(D::completion, (asked, serial), reply)
                },
            final(self)@ == old(self)@.push(DriverStep::Completion { serial, reply }),
    {
        let reply = self.driver.completion(serial);
        proof {
            self.log@ = self.log@.push(DriverStep::Completion { serial, reply });
        }
        reply
    }

    pub fn completion_or_register_waker(&mut self, serial: u64, waiter: u64) -> (reply: CompletionState)
        ensures
            exists|asked: &mut D|
                {
                    &&& *asked == old(self).spec_driver()
                    &&& *final(asked) == final(self).spec_driver()
                    &&& #[trigger] call_ensures(D::completion_or_register_waker, (asked, serial, waiter), reply)
                },
            final(self)@ == old(self)@.push(DriverStep::AwaitCompletion { serial, waiter, reply }),
    {
        let reply = self.driver.completion_or_register_waker(serial, waiter);
        proof {
            self.log@ = self.log@.push(DriverStep::AwaitCompletion { serial, waiter, reply });
        }
        reply
    }

    pub fn destroy(&mut self, kind: GlObjectKind, name: GlObjectName)
        ensures
            exists|asked: &mut D|
                {
                    &&& *asked == old(self).spec_driver()
                    &&& *final(asked) == final(self).spec_driver()
                    &&& #[trigger] call_ensures(D::destroy, (asked, kind, name), ())
                },
            final(self)@ == old(self)@.push(DriverStep::Destroy { kind, name }),
    {
        self.driver.destroy(kind, name);
        proof {
            self.log@ = self.log@.push(DriverStep::Destroy { kind, name });
        }
    }

    pub fn poll(&mut self) -> (reply: Result<(), RhiError>)
        ensures
            exists|asked: &mut D|
                {
                    &&& *asked == old(self).spec_driver()
                    &&& *final(asked) == final(self).spec_driver()
                    &&& #[trigger] call_ensures(D::poll, (asked,), reply)
                },
            final(self)@ == old(self)@.push(DriverStep::Poll { reply }),
    {
        let reply = self.driver.poll();
        proof {
            self.log@ = self.log@.push(DriverStep::Poll { reply });
        }
        reply
    }

    pub fn wait_idle(&mut self) -> (reply: Result<(), RhiError>)
        ensures
            exists|asked: &mut D|
                {
                    &&& *asked == old(self).spec_driver()
                    &&& *final(asked) == final(self).spec_driver()
                    &&& #[trigger] call_ensures(D::wait_idle, (asked,), reply)
                },
            final(self)@ == old(self)@.push(DriverStep::WaitIdle { reply }),
    {
        let reply = self.driver.wait_idle();
        proof {
            self.log@ = self.log@.push(DriverStep::WaitIdle { reply });
        }
        reply
    }

    pub fn supports_presentation(&mut self, target: ObjectId) -> (reply: Result<bool, RhiError>)
        ensures
            exists|asked: &mut D|
                {
                    &&& *asked == old(self).spec_driver()
                    &&& *final(asked) == final(self).spec_driver()
                    &&& #[trigger] call_ensures(D::supports_presentation, (asked, target), reply)
                },
            final(self)@ == old(self)@.push(DriverStep::SupportsPresentation { target, reply }),
    {
        let reply = self.driver.supports_presentation(target);
        proof {
            self.log@ = self.log@.push(DriverStep::SupportsPresentation { target, reply });
        }
        reply
    }

    pub fn presentation_capabilities(&mut self, target: ObjectId) -> (reply: Result<PresentationTargetCapabilities, RhiError>)
        ensures
            exists|asked: &mut D|
                {
                    &&& *asked == old(self).spec_driver()
                    &&& *final(asked) == final(self).spec_driver()
                    &&& #[trigger] call_ensures(D::presentation_capabilities, (asked, target), reply)
                },
            final(self)@ == old(self)@.push(DriverStep::PresentationCapabilities { target, reply }),
    {
        let reply = self.driver.presentation_capabilities(target);
        proof {
            self.log@ = self.log@.push(DriverStep::PresentationCapabilities { target, reply });
        }
        reply
    }

    pub fn configure_presentation(&mut self, target: ObjectId) -> (reply: Result<GlPresentationLease, RhiError>)
        ensures
            exists|asked: &mut D|
                {
                    &&& *asked == old(self).spec_driver()
                    &&& *final(asked) == final(self).spec_driver()
                    &&& #[trigger] call_ensures(D::configure_presentation, (asked, target), reply)
                },
            final(self)@ == old(self)@.push(DriverStep::ConfigurePresentation { target, reply }),
    {
        let reply = self.driver.configure_presentation(target);
        proof {
            self.log@ = self.log@.push(DriverStep::ConfigurePresentation { target, reply });
        }
        reply
    }

    pub fn lease_capabilities(&mut self, lease: GlPresentationLease) -> (reply: Result<PresentationTargetCapabilities, RhiError>)
        ensures
            exists|asked: &mut D|
                {
                    &&& *asked == old(self).spec_driver()
                    &&& *final(asked) == final(self).spec_driver()
                    &&& #[trigger] call_ensures(D::lease_capabilities, (asked, lease), reply)
                },
            final(self)@ == old(self)@.push(DriverStep::LeaseCapabilities { lease, reply }),
    {
        let reply = self.driver.lease_capabilities(lease);
        proof {
            self.log@ = self.log@.push(DriverStep::LeaseCapabilities { lease, reply });
        }
        reply
    }

    pub fn reconfigure_or_register_waker(&mut self, lease: GlPresentationLease, waiter: u64) -> (reply: Progress<Result<(), RhiError>>)
        ensures
            exists|asked: &mut D|
                {
                    &&& *asked == old(self).spec_driver()
                    &&& *final(asked) == final(self).spec_driver()
                    &&& #[trigger] call_ensures(D::reconfigure_or_register_waker, (asked, lease, waiter), reply)
                },
            final(self)@ == old(self)@.push(DriverStep::Reconfigure { lease, waiter, reply }),
    {
        let reply = self.driver.reconfigure_or_register_waker(lease, waiter);
        proof {
            self.log@ = self.log@.push(DriverStep::Reconfigure { lease, waiter, reply });
        }
        reply
    }

    pub fn try_acquire(&mut self, lease: GlPresentationLease) -> (reply: Result<Option<GlAcquiredFramebuffer>, AcquireError>)
        ensures
            exists|asked: &mut D|
                {
                    &&& *asked == old(self).spec_driver()
                    &&& *final(asked) == final(self).spec_driver()
                    &&& #[trigger] call_ensures(D::try_acquire, (asked, lease), reply)
                },
            final(self)@ == old(self)@.push(DriverStep::TryAcquire { lease, reply }),
    {
        let reply = self.driver.try_acquire(lease);
        proof {
            self.log@ = self.log@.push(DriverStep::TryAcquire { lease, reply });
        }
        reply
    }

    pub fn acquire_or_register_waker(&mut self, lease: GlPresentationLease, waiter: u64) -> (reply: Progress<Result<GlAcquiredFramebuffer, AcquireError>>)
        ensures
            exists|asked: &mut D|
                {
                    &&& *asked == old(self).spec_driver()
                    &&& *final(asked) == final(self).spec_driver()
                    &&& #[trigger] call_ensures(D::acquire_or_register_waker, (asked, lease, waiter), reply)
                },
            final(self)@ == old(self)@.push(DriverStep::AwaitFrame { lease, waiter, reply }),
    {
        let reply = self.driver.acquire_or_register_waker(lease, waiter);
        proof {
            self.log@ = self.log@.push(DriverStep::AwaitFrame { lease, waiter, reply });
        }
        reply
    }

    pub fn abandon(&mut self, lease: GlPresentationLease) -> (reply: Result<(), RhiError>)
        ensures
            exists|asked: &mut D|
                {
                    &&& *asked == old(self).spec_driver()
                    &&& *final(asked) == final(self).spec_driver()
                    &&& #[trigger] call_ensures(D::abandon, (asked, lease), reply)
                },
            final(self)@ == old(self)@.push(DriverStep::Abandon { lease, reply }),
    {
        let reply = self.driver.abandon(lease);
        proof {
            self.log@ = self.log@.push(DriverStep::Abandon { lease, reply });
        }
        reply
    }

    pub fn release_presentation(&mut self, lease: GlPresentationLease)
        ensures
            exists|asked: &mut D|
                {
                    &&& *asked == old(self).spec_driver()
                    &&& *final(asked) == final(self).spec_driver()
                    &&& #[trigger] call_ensures(D::release_presentation, (asked, lease), ())
                },
            final(self)@ == old(self)@.push(DriverStep::Release { lease }),
    {
        self.driver.release_presentation(lease);
        proof {
            self.log@ = self.log@.push(DriverStep::Release { lease });
        }
    }

    pub fn present(&mut self, frame: GlAcquiredFramebuffer, receipt: u64)
        ensures
            exists|asked: &mut D|
                {
                    &&& *asked == old(self).spec_driver()
                    &&& *final(asked) == final(self).spec_driver()
                    &&& #[trigger] call_ensures(D::present, (asked, frame, receipt), ())
                },
            final(self)@ == old(self)@.push(DriverStep::Present { frame, receipt }),
    {
        self.driver.present(frame, receipt);
        proof {
            self.log@ = self.log@.push(DriverStep::Present { frame, receipt });
        }
    }

    pub fn terminate_present(&mut self, frame: GlAcquiredFramebuffer, receipt: u64, state: PresentState)
        ensures
            exists|asked: &mut D|
                {
                    &&& *asked == old(self).spec_driver()
                    &&& *final(asked) == final(self).spec_driver()
                    &&& #[trigger] call_ensures(D::terminate_present, (asked, frame, receipt, state), ())
                },
            final(self)@ == old(self)@.push(DriverStep::TerminatePresent { frame, receipt, state }),
    {
        self.driver.terminate_present(frame, receipt, state);
        proof {
            self.log@ = self.log@.push(DriverStep::TerminatePresent { frame, receipt, state });
        }
    }

    pub fn present_state(&mut self, receipt: u64) -> (reply: Result<PresentState, RhiError>)
        ensures
            exists|asked: &mut D|
                {
                    &&& *asked == old(self).spec_driver()
                    &&& *final(asked) == final(self).spec_driver()
                    &&& #[trigger] call_ensures(D::present_state, (asked, receipt), reply)
                },
            final(self)@ == old(self)@.push(DriverStep::PresentStateOf { receipt, reply }),
    {
        let reply = self.driver.present_state(receipt);
        proof {
            self.log@ = self.log@.push(DriverStep::PresentStateOf { receipt, reply });
        }
        reply
    }

    pub fn present_state_or_register_waker(&mut self, receipt: u64, waiter: u64) -> (reply: Result<PresentState, RhiError>)
        ensures
            exists|asked: &mut D|
                {
                    &&& *asked == old(self).spec_driver()
                    &&& *final(asked) == final(self).spec_driver()
                    &&& #[trigger] call_ensures(D::present_state_or_register_waker, (asked, receipt, waiter), reply)
                },
            final(self)@ == old(self)@.push(DriverStep::AwaitPresent { receipt, waiter, reply }),
    {
        let reply = self.driver.present_state_or_register_waker(receipt, waiter);
        proof {
            self.log@ = self.log@.push(DriverStep::AwaitPresent { receipt, waiter, reply });
        }
        reply
    }

    pub fn device_lost(&mut self, info: &DeviceLossInfo)
        ensures
            exists|asked: &mut D|
                {
                    &&& *asked == old(self).spec_driver()
                    &&& *final(asked) == final(self).spec_driver()
                    &&& #[trigger] call_ensures(D::device_lost, (asked, info), ())
                },
            final(self)@ == old(self)@.push(DriverStep::DeviceLost { info: *info }),
    {
        self.driver.device_lost(info);
        proof {
            self.log@ = self.log@.push(DriverStep::DeviceLost { info: *info });
        }
    }
}

} // verus!
