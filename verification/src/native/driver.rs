//! The driver of a native context, as a device sees it.
//!
//! A native context belongs to one thread, and the device does not. So the
//! driver holds no context: it holds an owner that brings every call to the
//! thread of the context and answers once the call has been served.

use vstd::prelude::*;
use std::sync::Arc;
use crate::api::command::{
    BatchModel, GlAcquiredFramebuffer, GlPresentationLease, GlSubmissionBatch, GlSubmissionPlan,
    RecordedCommand,
};
use crate::api::error::{
    CompletionFailure, CompletionState, DeviceLossInfo, RhiDetail, RhiError, RhiErrorKind,
    WorkerStartupError,
};
use crate::api::identity::ObjectId;
use crate::api::pipeline::{ComputePipelineDescriptor, RasterPipelineDescriptor};
use crate::api::resource::{
    BufferDescriptor, BufferRange, MapMode, QuerySetDescriptor, SamplerDescriptor,
    TextureDescriptor, TextureViewDescriptor,
};
use crate::api::shader::ShaderArtifact;
use crate::exact::Share;
use crate::native::execute::SubmissionOutcome;
use crate::native::link::unsupported;
use crate::native::owner::PresentState;
use crate::native::present::{
    AcquireDetail, AcquireError, AcquireErrorKind, PresentationTargetCapabilities, Progress,
};
use crate::platform::driver::GlExecutionDriver;
use crate::platform::object::{
    EntryModel, GlBindGroupPacket, GlBufferRef, GlObjectKind, GlObjectName, GlShaderRef,
    GlTextureRef,
};
use crate::translate;

verus! {

/// The refusal of a frame by an owner that shows nothing.
pub open spec fn no_presentation() -> AcquireError {
    AcquireError {
        kind: AcquireErrorKind::NotReady,
        detail: AcquireDetail::Text("native GL presentation is unavailable"),
    }
}

fn unavailable() -> (result: AcquireError)
    ensures
        result == no_presentation(),
{
    AcquireError {
        kind: AcquireErrorKind::NotReady,
        detail: AcquireDetail::Text("native GL presentation is unavailable"),
    }
}

/// The error for an owner thread that does not answer.
pub fn worker_error(error: WorkerStartupError) -> (result: RhiError)
    ensures
        result == (RhiError {
            kind: RhiErrorKind::DeviceLost,
            detail: RhiDetail::Worker(error),
            operation: None,
        }),
{
    RhiError::because(RhiErrorKind::DeviceLost, RhiDetail::Worker(error))
}

/// One question to the owner, and its answer.
#[allow(inconsistent_fields)]
pub enum OwnerStep {
    /// In this step an operation was sent to the owner.
    Dispatch { operation: &'static str, reply: Result<(), RhiError> },
    /// In this step a buffer was made.
    CreateBuffer { desc: BufferDescriptor, reply: Result<GlObjectName, RhiError> },
    /// In this step a texture was made.
    CreateTexture { desc: TextureDescriptor, reply: Result<GlObjectName, RhiError> },
    /// In this step a view was made.
    CreateTextureView { texture: GlTextureRef, desc: TextureViewDescriptor, reply: Result<GlObjectName, RhiError> },
    /// In this step a sampler was made.
    CreateSampler { desc: SamplerDescriptor, reply: Result<GlObjectName, RhiError> },
    /// In this step a query set was made.
    CreateQuerySet { desc: QuerySetDescriptor, reply: Result<GlObjectName, RhiError> },
    /// In this step a shader was made.
    CreateShader { artifact: ShaderArtifact, reply: Result<GlObjectName, RhiError> },
    /// In this step a bind group was made.
    CreateBindGroup { packet: Seq<EntryModel>, reply: Result<GlObjectName, RhiError> },
    /// In this step a compute pipeline was made.
    CreateComputePipeline { desc: ComputePipelineDescriptor, shader: GlShaderRef, reply: Result<GlObjectName, RhiError> },
    /// In this step a raster pipeline was made.
    CreateRasterPipeline { desc: RasterPipelineDescriptor, vertex: GlShaderRef, fragment: Option<GlShaderRef>, reply: Result<GlObjectName, RhiError> },
    /// In this step a buffer was mapped.
    MapBuffer { buffer: GlBufferRef, mode: MapMode, range: BufferRange, reply: Result<u64, RhiError> },
    /// In this step a submission was handed over.
    Submit { batches: Seq<BatchModel>, reply: Result<SubmissionOutcome, RhiError> },
    /// In this step a submission was asked for.
    Completion { serial: u64, reply: CompletionState },
    /// In this step a submission was asked for, to be waited for.
    AwaitCompletion { serial: u64, waiter: u64, reply: CompletionState },
    /// In this step an object was given up.
    Destroy { kind: GlObjectKind, name: GlObjectName },
    /// In this step the owner was polled.
    Poll { reply: Result<(), RhiError> },
    /// In this step the owner was asked to wait.
    WaitIdle { reply: Result<(), RhiError> },
    /// In this step whether a target can be shown was asked for.
    SupportsPresentation { target: ObjectId, reply: Result<bool, RhiError> },
    /// In this step what a target can show was asked for.
    PresentationCapabilities { target: ObjectId, reply: Result<PresentationTargetCapabilities, RhiError> },
    /// In this step a target was configured.
    ConfigurePresentation { target: ObjectId, reply: Result<GlPresentationLease, RhiError> },
    /// In this step what a drawable can show was asked for.
    LeaseCapabilities { lease: GlPresentationLease, reply: Result<PresentationTargetCapabilities, RhiError> },
    /// In this step a drawable was configured again, to be waited for.
    Reconfigure { lease: GlPresentationLease, waiter: u64, reply: Progress<Result<(), RhiError>> },
    /// In this step a frame was asked for.
    TryAcquire { lease: GlPresentationLease, reply: Result<Option<GlAcquiredFramebuffer>, AcquireError> },
    /// In this step a frame was asked for, to be waited for.
    AwaitFrame { lease: GlPresentationLease, waiter: u64, reply: Progress<Result<GlAcquiredFramebuffer, AcquireError>> },
    /// In this step a frame was dropped.
    Abandon { lease: GlPresentationLease, reply: Result<(), RhiError> },
    /// In this step a drawable was given up.
    Release { lease: GlPresentationLease },
    /// In this step a frame was shown.
    Present { frame: GlAcquiredFramebuffer, receipt: u64 },
    /// In this step a frame was ended.
    TerminatePresent { frame: GlAcquiredFramebuffer, receipt: u64, state: PresentState },
    /// In this step a receipt was asked for.
    PresentStateOf { receipt: u64, reply: Result<PresentState, RhiError> },
    /// In this step a receipt was asked for, to be waited for.
    AwaitPresent { receipt: u64, waiter: u64, reply: Result<PresentState, RhiError> },
    /// In this step the loss of the device was told.
    DeviceLost { info: DeviceLossInfo },
}

/// The owner of a native context. It answers a call only after the call was
/// served on the thread of the context: work that is merely queued is no
/// answer.
pub trait NativeGlOwner: Sized {
    fn dispatch(&mut self, operation: &'static str) -> Result<(), RhiError>;

    fn create_buffer(&mut self, desc: &BufferDescriptor) -> (reply: Result<GlObjectName, RhiError>)
        default_ensures
            *final(self) == *old(self),
            reply == Err::<GlObjectName, _>(crate::native::link::unsupported_at("create_buffer")),
    {
        Err(unsupported("create_buffer"))
    }

    fn create_texture(&mut self, desc: &TextureDescriptor) -> (reply: Result<GlObjectName, RhiError>)
        default_ensures
            *final(self) == *old(self),
            reply == Err::<GlObjectName, _>(crate::native::link::unsupported_at("create_texture")),
    {
        Err(unsupported("create_texture"))
    }

    fn create_texture_view(&mut self, texture: GlTextureRef, desc: &TextureViewDescriptor) -> (reply: Result<GlObjectName, RhiError>)
        default_ensures
            *final(self) == *old(self),
            reply == Err::<GlObjectName, _>(crate::native::link::unsupported_at("create_texture_view")),
    {
        Err(unsupported("create_texture_view"))
    }

    fn create_sampler(&mut self, desc: &SamplerDescriptor) -> (reply: Result<GlObjectName, RhiError>)
        default_ensures
            *final(self) == *old(self),
            reply == Err::<GlObjectName, _>(crate::native::link::unsupported_at("create_sampler")),
    {
        Err(unsupported("create_sampler"))
    }

    fn create_query_set(&mut self, desc: &QuerySetDescriptor) -> (reply: Result<GlObjectName, RhiError>)
        default_ensures
            *final(self) == *old(self),
            reply == Err::<GlObjectName, _>(crate::native::link::unsupported_at("create_query_set")),
    {
        Err(unsupported("create_query_set"))
    }

    fn create_shader(&mut self, artifact: &ShaderArtifact) -> (reply: Result<GlObjectName, RhiError>)
        default_ensures
            *final(self) == *old(self),
            reply == Err::<GlObjectName, _>(crate::native::link::unsupported_at("create_shader")),
    {
        Err(unsupported("create_shader"))
    }

    fn create_bind_group(&mut self, packet: Arc<GlBindGroupPacket>) -> (reply: Result<GlObjectName, RhiError>)
        default_ensures
            *final(self) == *old(self),
            reply == Err::<GlObjectName, _>(crate::native::link::unsupported_at("create_bind_group")),
    {
        Err(unsupported("create_bind_group"))
    }

    fn create_compute_pipeline(&mut self, desc: &ComputePipelineDescriptor, shader: GlShaderRef) -> (reply: Result<GlObjectName, RhiError>)
        default_ensures
            *final(self) == *old(self),
            reply == Err::<GlObjectName, _>(crate::native::link::unsupported_at("create_compute_pipeline")),
    {
        Err(unsupported("create_compute_pipeline"))
    }

    fn create_raster_pipeline(&mut self, desc: &RasterPipelineDescriptor, vertex: GlShaderRef, fragment: Option<GlShaderRef>) -> (reply: Result<GlObjectName, RhiError>)
        default_ensures
            *final(self) == *old(self),
            reply == Err::<GlObjectName, _>(crate::native::link::unsupported_at("create_raster_pipeline")),
    {
        Err(unsupported("create_raster_pipeline"))
    }

    fn map_buffer(&mut self, buffer: GlBufferRef, mode: MapMode, range: BufferRange) -> (reply: Result<u64, RhiError>)
        default_ensures
            *final(self) == *old(self),
            reply == Err::<u64, _>(crate::native::link::unsupported_at("map_buffer")),
    {
        Err(unsupported("map_buffer"))
    }

    fn submit(&mut self, plan: &GlSubmissionPlan) -> (reply: Result<SubmissionOutcome, RhiError>)
        default_ensures
            *final(self) == *old(self),
            reply == Err::<SubmissionOutcome, _>(crate::native::link::unsupported_at("submit")),
    {
        Err(unsupported("submit"))
    }

    fn completion(&mut self, serial: u64) -> (reply: CompletionState)
        default_ensures
            *final(self) == *old(self),
            reply == CompletionState::Failed(CompletionFailure::NeverAccepted { serial }),
    {
        CompletionState::Failed(CompletionFailure::NeverAccepted { serial })
    }

    /// The state of a submission. An implementor that can wake a waiter does so
    /// once the state changes; without one, the state is only asked for.
    fn completion_or_register_waker(&mut self, serial: u64, waiter: u64) -> (reply: CompletionState)
        default_ensures
            exists|asked: &mut Self|
                {
                    &&& *asked == *old(self)
                    &&& *final(asked) == *final(self)
                    &&& #[trigger] call_ensures(Self::completion, (asked, serial), reply)
                },
    {
        self.completion(serial)
    }

    fn destroy(&mut self, kind: GlObjectKind, name: GlObjectName)
        default_ensures
            *final(self) == *old(self),
    {
    }

    /// Sends the owner an operation of that name.
    fn poll(&mut self) -> (reply: Result<(), RhiError>)
        default_ensures
            exists|asked: &mut Self|
                {
                    &&& *asked == *old(self)
                    &&& *final(asked) == *final(self)
                    &&& #[trigger] call_ensures(Self::dispatch, (asked, "NativeGlOwner::poll"), reply)
                },
    {
        self.dispatch("NativeGlOwner::poll")
    }

    fn wait_idle(&mut self) -> (reply: Result<(), RhiError>)
        default_ensures
            *final(self) == *old(self),
            reply == Err::<(), _>(crate::native::link::unsupported_at("wait_idle")),
    {
        Err(unsupported("wait_idle"))
    }

    fn supports_presentation(&mut self, target: ObjectId) -> (reply: Result<bool, RhiError>)
        default_ensures
            *final(self) == *old(self),
            reply == Ok::<_, RhiError>(false),
    {
        Ok(false)
    }

    fn presentation_capabilities(&mut self, target: ObjectId) -> (reply: Result<PresentationTargetCapabilities, RhiError>)
        default_ensures
            *final(self) == *old(self),
            reply == Err::<PresentationTargetCapabilities, _>(crate::native::link::unsupported_at("presentation_capabilities")),
    {
        Err(unsupported("presentation_capabilities"))
    }

    fn configure_presentation(&mut self, target: ObjectId) -> (reply: Result<GlPresentationLease, RhiError>)
        default_ensures
            *final(self) == *old(self),
            reply == Err::<GlPresentationLease, _>(crate::native::link::unsupported_at("configure_presentation")),
    {
        Err(unsupported("configure_presentation"))
    }

    fn lease_capabilities(&mut self, lease: GlPresentationLease) -> (reply: Result<PresentationTargetCapabilities, RhiError>)
        default_ensures
            *final(self) == *old(self),
            reply == Err::<PresentationTargetCapabilities, _>(crate::native::link::unsupported_at("lease_capabilities")),
    {
        Err(unsupported("lease_capabilities"))
    }

    fn reconfigure_or_register_waker(&mut self, lease: GlPresentationLease, waiter: u64) -> (reply: Progress<Result<(), RhiError>>)
        default_ensures
            *final(self) == *old(self),
            reply == Progress::Ready(Err::<(), _>(crate::native::link::unsupported_at("reconfigure_presentation"))),
    {
        Progress::Ready(Err(unsupported("reconfigure_presentation")))
    }

    fn try_acquire(&mut self, lease: GlPresentationLease) -> (reply: Result<Option<GlAcquiredFramebuffer>, AcquireError>)
        default_ensures
            *final(self) == *old(self),
            reply == Err::<Option<GlAcquiredFramebuffer>, _>(no_presentation()),
    {
        Err(unavailable())
    }

    fn acquire_or_register_waker(&mut self, lease: GlPresentationLease, waiter: u64) -> (reply: Progress<Result<GlAcquiredFramebuffer, AcquireError>>)
        default_ensures
            *final(self) == *old(self),
            reply == Progress::Ready(Err::<GlAcquiredFramebuffer, _>(no_presentation())),
    {
        Progress::Ready(Err(unavailable()))
    }

    fn abandon(&mut self, lease: GlPresentationLease) -> (reply: Result<(), RhiError>)
        default_ensures
            *final(self) == *old(self),
            reply == Err::<(), _>(crate::native::link::unsupported_at("abandon_frame")),
    {
        Err(unsupported("abandon_frame"))
    }

    fn release_presentation(&mut self, lease: GlPresentationLease)
        default_ensures
            *final(self) == *old(self),
    {
    }

    fn present(&mut self, frame: GlAcquiredFramebuffer, receipt: u64)
        default_ensures
            *final(self) == *old(self),
    {
    }

    fn terminate_present(&mut self, frame: GlAcquiredFramebuffer, receipt: u64, state: PresentState)
        default_ensures
            *final(self) == *old(self),
    {
    }

    fn present_state(&mut self, receipt: u64) -> (reply: Result<PresentState, RhiError>)
        default_ensures
            *final(self) == *old(self),
            reply == Err::<PresentState, _>(crate::native::link::unsupported_at("present_state")),
    {
        Err(unsupported("present_state"))
    }

    fn present_state_or_register_waker(&mut self, receipt: u64, waiter: u64) -> (reply: Result<PresentState, RhiError>)
        default_ensures
            *final(self) == *old(self),
            reply == Err::<PresentState, _>(crate::native::link::unsupported_at("present_state_or_register_waker")),
    {
        Err(unsupported("present_state_or_register_waker"))
    }

    fn device_lost(&mut self, info: &DeviceLossInfo)
        default_ensures
            *final(self) == *old(self),
    {
    }
}

/// A loss, and the device that has to be told of it.
#[derive(Debug)]
pub struct DeviceLoss {
    pub device: ObjectId,
    pub info: DeviceLossInfo,
}

/// The losses of one device, in their order.
pub open spec fn losses_of(losses: Seq<DeviceLoss>, device: ObjectId) -> Seq<DeviceLossInfo>
    decreases losses.len(),
{
    if losses.len() == 0 {
        Seq::empty()
    } else {
        let before = losses_of(losses.drop_last(), device);
        if losses.last().device == device {
            before.push(losses.last().info)
        } else {
            before
        }
    }
}

/// The losses of all devices but one, in their order.
pub open spec fn losses_of_others(losses: Seq<DeviceLoss>, device: ObjectId) -> Seq<DeviceLoss>
    decreases losses.len(),
{
    if losses.len() == 0 {
        Seq::empty()
    } else {
        let before = losses_of_others(losses.drop_last(), device);
        if losses.last().device == device {
            before
        } else {
            before.push(losses.last())
        }
    }
}

/// What a driver did and has to do: what it asked its owner, which device wants
/// to know of losses, and of which losses devices have to be told.
#[verifier::ext_equal]
pub struct DriverModel {
    pub log: Seq<OwnerStep>,
    pub listener: Option<ObjectId>,
    pub reported: Seq<DeviceLoss>,
}

/// The driver of a native context.
pub struct NativeGlDriver<O> {
    owner: O,
    listener: Option<ObjectId>,
    reported: Vec<DeviceLoss>,
    log: Ghost<Seq<OwnerStep>>,
}

impl<O> View for NativeGlDriver<O> {
    type V = DriverModel;

    closed spec fn view(&self) -> DriverModel {
        DriverModel {
            log: self.log@,
            listener: self.listener,
            reported: self.reported@,
        }
    }
}

impl DriverModel {
    /// The driver after one more question.
    pub open spec fn asked(self, step: OwnerStep) -> DriverModel {
        DriverModel { log: self.log.push(step), ..self }
    }

    /// The driver after a device asked to be told of losses. It tells nobody
    /// else from then on.
    pub open spec fn listened_to(self, device: ObjectId) -> DriverModel {
        DriverModel { listener: Some(device), ..self }
    }

    /// The driver after it handed over the losses of a device.
    pub open spec fn told(self, device: ObjectId) -> DriverModel {
        DriverModel { reported: losses_of_others(self.reported, device), ..self }
    }

    /// The driver after it saw the state of a submission: a loss is reported to
    /// the device that listens.
    pub open spec fn seeing(self, state: CompletionState) -> DriverModel {
        match state {
            CompletionState::DeviceLost(info) => match self.listener {
                Some(device) => DriverModel {
                    reported: self.reported.push(DeviceLoss { device, info }),
                    ..self
                },
                None => self,
            },
            _ => self,
        }
    }
}

/// A loss that the driver meets is told to the device that listens, and told
/// once. No other device hears of it.
pub proof fn losses_are_told_once(
    driver: DriverModel,
    device: ObjectId,
    other: ObjectId,
    info: DeviceLossInfo,
)
    requires
        driver.listener == Some(device),
        other != device,
    ensures
        ({
            let after = driver.seeing(CompletionState::DeviceLost(info));
            &&& losses_of(after.reported, device) == losses_of(driver.reported, device).push(info)
            &&& losses_of(after.reported, other) == losses_of(driver.reported, other)
            &&& losses_of(after.told(device).reported, device).len() == 0
            &&& losses_of(after.told(device).reported, other) == losses_of(driver.reported, other)
        }),
{
    let after = driver.seeing(CompletionState::DeviceLost(info));
    assert(after.reported.drop_last() =~= driver.reported);
    lemma_others(after.reported, device, other);
}

proof fn lemma_others(losses: Seq<DeviceLoss>, device: ObjectId, other: ObjectId)
    requires
        other != device,
    ensures
        losses_of(losses_of_others(losses, device), device).len() == 0,
        losses_of(losses_of_others(losses, device), other) == losses_of(losses, other),
    decreases losses.len(),
{
    if losses.len() > 0 {
        lemma_others(losses.drop_last(), device, other);
        let before = losses_of_others(losses.drop_last(), device);
        assert(before.push(losses.last()).drop_last() =~= before);
    }
}

/// The first command of a submission that is beyond GL, as an error.
pub open spec fn preflight_refusal(batches: Seq<GlSubmissionBatch>) -> Option<RhiError>
    decreases batches.len(),
{
    if batches.len() == 0 {
        None
    } else {
        match preflight_refusal(batches.drop_last()) {
            Some(error) => Some(error),
            None => command_refusal(batches.last().commands@),
        }
    }
}

/// The first command that is beyond GL, as an error.
pub open spec fn command_refusal(commands: Seq<Arc<RecordedCommand>>) -> Option<RhiError>
    decreases commands.len(),
{
    if commands.len() == 0 {
        None
    } else {
        match command_refusal(commands.drop_last()) {
            Some(error) => Some(error),
            None => match translate::preflighted(*commands.last()) {
                Err(error) => Some(error),
                Ok(_) => None,
            },
        }
    }
}

proof fn lemma_commands_stop(commands: Seq<Arc<RecordedCommand>>, at: int)
    requires
        0 <= at <= commands.len(),
        command_refusal(commands.take(at)) is Some,
    ensures
        command_refusal(commands) == command_refusal(commands.take(at)),
    decreases commands.len(),
{
    if at == commands.len() {
        assert(commands.take(at) =~= commands);
    } else {
        assert(commands.drop_last().take(at) =~= commands.take(at));
        lemma_commands_stop(commands.drop_last(), at);
    }
}

proof fn lemma_batches_stop(batches: Seq<GlSubmissionBatch>, at: int)
    requires
        0 <= at <= batches.len(),
        preflight_refusal(batches.take(at)) is Some,
    ensures
        preflight_refusal(batches) == preflight_refusal(batches.take(at)),
    decreases batches.len(),
{
    if at == batches.len() {
        assert(batches.take(at) =~= batches);
    } else {
        assert(batches.drop_last().take(at) =~= batches.take(at));
        lemma_batches_stop(batches.drop_last(), at);
    }
}

fn preflight_batch(commands: &Vec<Arc<RecordedCommand>>) -> (result: Result<(), RhiError>)
    ensures
        result == (match command_refusal(commands@) {
            Some(error) => Err(error),
            None => Ok(()),
        }),
{
    let mut at: usize = 0;
    while at < commands.len()
        invariant
            at <= commands@.len(),
            command_refusal(commands@.take(at as int)) is None,
        decreases commands@.len() - at,
    {
        proof {
            assert(commands@.take(at + 1).drop_last() =~= commands@.take(at as int));
            assert(commands@.take(at + 1).last() == commands@[at as int]);
        }
        match translate::preflight_recorded_command(&commands[at]) {
            Ok(()) => {},
            Err(error) => {
                proof {
                    lemma_commands_stop(commands@, at + 1);
                }
                return Err(error);
            },
        }
        at += 1;
    }
    assert(commands@.take(at as int) =~= commands@);
    Ok(())
}

/// Refuses a submission that holds a command beyond GL, before anything of it
/// reaches the owner.
pub fn preflight_submission(plan: &GlSubmissionPlan) -> (result: Result<(), RhiError>)
    ensures
        result == (match preflight_refusal(plan.batches@) {
            Some(error) => Err(error),
            None => Ok(()),
        }),
{
    let batches = &plan.batches;
    let mut at: usize = 0;
    while at < batches.len()
        invariant
            at <= batches@.len(),
            *batches == plan.batches,
            preflight_refusal(batches@.take(at as int)) is None,
        decreases batches@.len() - at,
    {
        proof {
            assert(batches@.take(at + 1).drop_last() =~= batches@.take(at as int));
            assert(batches@.take(at + 1).last() == batches@[at as int]);
        }
        match preflight_batch(&batches[at].commands) {
            Ok(()) => {},
            Err(error) => {
                proof {
                    lemma_batches_stop(batches@, at + 1);
                }
                return Err(error);
            },
        }
        at += 1;
    }
    assert(batches@.take(at as int) =~= batches@);
    Ok(())
}

impl<O: NativeGlOwner> NativeGlDriver<O> {
    pub fn new(owner: O) -> (result: Self)
        ensures
            result.spec_owner() == owner,
            result@ == (DriverModel {
                log: Seq::empty(),
                listener: None,
                reported: Seq::empty(),
            }),
    {
        let result = NativeGlDriver {
            owner,
            listener: None,
            reported: Vec::new(),
            log: Ghost(Seq::empty()),
        };
        assert(result@ =~= DriverModel {
            log: Seq::empty(),
            listener: None,
            reported: Seq::empty(),
        });
        result
    }

    /// Lets a device know of the losses that the driver meets from now on.
    pub fn install_loss_sink(&mut self, device: ObjectId)
        ensures
            final(self).spec_owner() == old(self).spec_owner(),
            final(self)@ == old(self)@.listened_to(device),
    {
        self.listener = Some(device);
    }

    /// Hands over the losses that a device has not been told of yet.
    pub fn take_losses(&mut self, device: ObjectId) -> (reply: Vec<DeviceLossInfo>)
        ensures
            reply@ == losses_of(old(self)@.reported, device),
            final(self).spec_owner() == old(self).spec_owner(),
            final(self)@ == old(self)@.told(device),
    {
        let mut reply: Vec<DeviceLossInfo> = Vec::new();
        let mut others: Vec<DeviceLoss> = Vec::new();
        let mut at: usize = 0;
        while at < self.reported.len()
            invariant
                at <= self.reported@.len(),
                *self == *old(self),
                reply@ == losses_of(self.reported@.take(at as int), device),
                others@ == losses_of_others(self.reported@.take(at as int), device),
            decreases self.reported@.len() - at,
        {
            let loss = &self.reported[at];
            proof {
                assert(self.reported@.take(at + 1).drop_last() =~= self.reported@.take(at as int));
            }
            if loss.device == device {
                reply.push(loss.info.share());
            } else {
                others.push(DeviceLoss { device: loss.device, info: loss.info.share() });
            }
            at += 1;
        }
        assert(self.reported@.take(at as int) =~= self.reported@);
        self.reported = others;
        reply
    }

    /// The owner that is asked.
    pub closed spec fn spec_owner(&self) -> O {
        self.owner
    }

    pub fn owner(&self) -> (result: &O)
        ensures
            *result == self.spec_owner(),
    {
        &self.owner
    }

    fn report_context_loss(&mut self, state: &CompletionState)
        ensures
            final(self).spec_owner() == old(self).spec_owner(),
            final(self)@ == old(self)@.seeing(*state),
    {
        match state {
            CompletionState::DeviceLost(info) => {
                if let Some(device) = self.listener {
                    self.reported.push(DeviceLoss { device, info: info.share() });
                }
            },
            _ => {},
        }
    }

    pub fn dispatch(&mut self, operation: &'static str) -> (reply: Result<(), RhiError>)
        ensures
            exists|asked: &mut O|
                {
                    &&& *asked == old(self).spec_owner()
                    &&& *final(asked) == final(self).spec_owner()
                    &&& #[trigger] call_ensures(O::dispatch, (asked, operation), reply)
                },
            final(self)@ == old(self)@.asked(OwnerStep::Dispatch { operation, reply }),
    {
        let reply = self.owner.dispatch(operation);
        proof {
            self.log@ = self.log@.push(OwnerStep::Dispatch { operation, reply });
        }
        reply
    }

    pub fn create_buffer(&mut self, desc: &BufferDescriptor) -> (reply: Result<GlObjectName, RhiError>)
        ensures
            exists|asked: &mut O|
                {
                    &&& *asked == old(self).spec_owner()
                    &&& *final(asked) == final(self).spec_owner()
                    &&& #[trigger] call_ensures(O::create_buffer, (asked, desc), reply)
                },
            final(self)@ == old(self)@.asked(OwnerStep::CreateBuffer { desc: *desc, reply }),
    {
        let reply = self.owner.create_buffer(desc);
        proof {
            self.log@ = self.log@.push(OwnerStep::CreateBuffer { desc: *desc, reply });
        }
        reply
    }

    pub fn create_texture(&mut self, desc: &TextureDescriptor) -> (reply: Result<GlObjectName, RhiError>)
        ensures
            exists|asked: &mut O|
                {
                    &&& *asked == old(self).spec_owner()
                    &&& *final(asked) == final(self).spec_owner()
                    &&& #[trigger] call_ensures(O::create_texture, (asked, desc), reply)
                },
            final(self)@ == old(self)@.asked(OwnerStep::CreateTexture { desc: *desc, reply }),
    {
        let reply = self.owner.create_texture(desc);
        proof {
            self.log@ = self.log@.push(OwnerStep::CreateTexture { desc: *desc, reply });
        }
        reply
    }

    pub fn create_texture_view(&mut self, texture: GlTextureRef, desc: &TextureViewDescriptor) -> (reply: Result<GlObjectName, RhiError>)
        ensures
            exists|asked: &mut O|
                {
                    &&& *asked == old(self).spec_owner()
                    &&& *final(asked) == final(self).spec_owner()
                    &&& #[trigger] call_ensures(O::create_texture_view, (asked, texture, desc), reply)
                },
            final(self)@ == old(self)@.asked(OwnerStep::CreateTextureView { texture, desc: *desc, reply }),
    {
        let reply = self.owner.create_texture_view(texture, desc);
        proof {
            self.log@ = self.log@.push(OwnerStep::CreateTextureView { texture, desc: *desc, reply });
        }
        reply
    }

    pub fn create_sampler(&mut self, desc: &SamplerDescriptor) -> (reply: Result<GlObjectName, RhiError>)
        ensures
            exists|asked: &mut O|
                {
                    &&& *asked == old(self).spec_owner()
                    &&& *final(asked) == final(self).spec_owner()
                    &&& #[trigger] call_ensures(O::create_sampler, (asked, desc), reply)
                },
            final(self)@ == old(self)@.asked(OwnerStep::CreateSampler { desc: *desc, reply }),
    {
        let reply = self.owner.create_sampler(desc);
        proof {
            self.log@ = self.log@.push(OwnerStep::CreateSampler { desc: *desc, reply });
        }
        reply
    }

    pub fn create_query_set(&mut self, desc: &QuerySetDescriptor) -> (reply: Result<GlObjectName, RhiError>)
        ensures
            exists|asked: &mut O|
                {
                    &&& *asked == old(self).spec_owner()
                    &&& *final(asked) == final(self).spec_owner()
                    &&& #[trigger] call_ensures(O::create_query_set, (asked, desc), reply)
                },
            final(self)@ == old(self)@.asked(OwnerStep::CreateQuerySet { desc: *desc, reply }),
    {
        let reply = self.owner.create_query_set(desc);
        proof {
            self.log@ = self.log@.push(OwnerStep::CreateQuerySet { desc: *desc, reply });
        }
        reply
    }

    pub fn create_shader(&mut self, artifact: &ShaderArtifact) -> (reply: Result<GlObjectName, RhiError>)
        ensures
            exists|asked: &mut O|
                {
                    &&& *asked == old(self).spec_owner()
                    &&& *final(asked) == final(self).spec_owner()
                    &&& #[trigger] call_ensures(O::create_shader, (asked, artifact), reply)
                },
            final(self)@ == old(self)@.asked(OwnerStep::CreateShader { artifact: *artifact, reply }),
    {
        let reply = self.owner.create_shader(artifact);
        proof {
            self.log@ = self.log@.push(OwnerStep::CreateShader { artifact: *artifact, reply });
        }
        reply
    }

    pub fn create_bind_group(&mut self, packet: Arc<GlBindGroupPacket>) -> (reply: Result<GlObjectName, RhiError>)
        ensures
            exists|asked: &mut O|
                {
                    &&& *asked == old(self).spec_owner()
                    &&& *final(asked) == final(self).spec_owner()
                    &&& #[trigger] call_ensures(O::create_bind_group, (asked, packet), reply)
                },
            final(self)@ == old(self)@.asked(OwnerStep::CreateBindGroup { packet: packet@, reply }),
    {
        let reply = self.owner.create_bind_group(packet);
        proof {
            self.log@ = self.log@.push(OwnerStep::CreateBindGroup { packet: packet@, reply });
        }
        reply
    }

    pub fn create_compute_pipeline(&mut self, desc: &ComputePipelineDescriptor, shader: GlShaderRef) -> (reply: Result<GlObjectName, RhiError>)
        ensures
            exists|asked: &mut O|
                {
                    &&& *asked == old(self).spec_owner()
                    &&& *final(asked) == final(self).spec_owner()
                    &&& #[trigger] call_ensures(O::create_compute_pipeline, (asked, desc, shader), reply)
                },
            final(self)@ == old(self)@.asked(OwnerStep::CreateComputePipeline { desc: *desc, shader, reply }),
    {
        let reply = self.owner.create_compute_pipeline(desc, shader);
        proof {
            self.log@ = self.log@.push(OwnerStep::CreateComputePipeline { desc: *desc, shader, reply });
        }
        reply
    }

    pub fn create_raster_pipeline(&mut self, desc: &RasterPipelineDescriptor, vertex: GlShaderRef, fragment: Option<GlShaderRef>) -> (reply: Result<GlObjectName, RhiError>)
        ensures
            exists|asked: &mut O|
                {
                    &&& *asked == old(self).spec_owner()
                    &&& *final(asked) == final(self).spec_owner()
                    &&& #[trigger] call_ensures(O::create_raster_pipeline, (asked, desc, vertex, fragment), reply)
                },
            final(self)@ == old(self)@.asked(OwnerStep::CreateRasterPipeline { desc: *desc, vertex, fragment, reply }),
    {
        let reply = self.owner.create_raster_pipeline(desc, vertex, fragment);
        proof {
            self.log@ = self.log@.push(OwnerStep::CreateRasterPipeline { desc: *desc, vertex, fragment, reply });
        }
        reply
    }

    pub fn map_buffer(&mut self, buffer: GlBufferRef, mode: MapMode, range: BufferRange) -> (reply: Result<u64, RhiError>)
        ensures
            exists|asked: &mut O|
                {
                    &&& *asked == old(self).spec_owner()
                    &&& *final(asked) == final(self).spec_owner()
                    &&& #[trigger] call_ensures(O::map_buffer, (asked, buffer, mode, range), reply)
                },
            final(self)@ == old(self)@.asked(OwnerStep::MapBuffer { buffer, mode, range, reply }),
    {
        let reply = self.owner.map_buffer(buffer, mode, range);
        proof {
            self.log@ = self.log@.push(OwnerStep::MapBuffer { buffer, mode, range, reply });
        }
        reply
    }

    /// Hands a submission over. A command beyond GL refuses it before that.
    pub fn submit(&mut self, plan: &GlSubmissionPlan) -> (result: Result<SubmissionOutcome, RhiError>)
        ensures
            match preflight_refusal(plan.batches@) {
                Some(error) => {
                    &&& *final(self) == *old(self)
                    &&& result == Err::<SubmissionOutcome, _>(error)
                },
                None => {
                    &&& final(self)@ == old(self)@.asked(
                        OwnerStep::Submit { batches: plan@, reply: result },
                    )
                    &&& exists|asked: &mut O|
                        {
                            &&& *asked == old(self).spec_owner()
                            &&& *final(asked) == final(self).spec_owner()
                            &&& #[trigger] call_ensures(O::submit, (asked, plan), result)
                        }
                },
            },
    {
        match preflight_submission(plan) {
            Ok(()) => {},
            Err(error) => {
                return Err(error);
            },
        }
        let reply = self.owner.submit(plan);
        proof {
            self.log@ = self.log@.push(OwnerStep::Submit { batches: plan@, reply });
        }
        reply
    }

    pub fn completion(&mut self, serial: u64) -> (reply: CompletionState)
        ensures
            exists|asked: &mut O|
                {
                    &&& *asked == old(self).spec_owner()
                    &&& *final(asked) == final(self).spec_owner()
                    &&& #[trigger] call_ensures(O::completion, (asked, serial), reply)
                },
            final(self)@ == old(self)@.asked(OwnerStep::Completion { serial, reply }).seeing(reply),
    {
        let reply = self.owner.completion(serial);
        proof {
            self.log@ = self.log@.push(OwnerStep::Completion { serial, reply });
        }
        self.report_context_loss(&reply);
        reply
    }

    pub fn completion_or_register_waker(&mut self, serial: u64, waiter: u64) -> (reply: CompletionState)
        ensures
            exists|asked: &mut O|
                {
                    &&& *asked == old(self).spec_owner()
                    &&& *final(asked) == final(self).spec_owner()
                    &&& #[trigger] call_ensures(O::completion_or_register_waker, (asked, serial, waiter), reply)
                },
            final(self)@ == old(self)@.asked(OwnerStep::AwaitCompletion { serial, waiter, reply }).seeing(reply),
    {
        let reply = self.owner.completion_or_register_waker(serial, waiter);
        proof {
            self.log@ = self.log@.push(OwnerStep::AwaitCompletion { serial, waiter, reply });
        }
        self.report_context_loss(&reply);
        reply
    }

    pub fn destroy(&mut self, kind: GlObjectKind, name: GlObjectName)
        ensures
            exists|asked: &mut O|
                {
                    &&& *asked == old(self).spec_owner()
                    &&& *final(asked) == final(self).spec_owner()
                    &&& #[trigger] call_ensures(O::destroy, (asked, kind, name), ())
                },
            final(self)@ == old(self)@.asked(OwnerStep::Destroy { kind, name }),
    {
        self.owner.destroy(kind, name);
        proof {
            self.log@ = self.log@.push(OwnerStep::Destroy { kind, name });
        }
    }

    pub fn poll(&mut self) -> (reply: Result<(), RhiError>)
        ensures
            exists|asked: &mut O|
                {
                    &&& *asked == old(self).spec_owner()
                    &&& *final(asked) == final(self).spec_owner()
                    &&& #[trigger] call_ensures(O::poll, (asked,), reply)
                },
            final(self)@ == old(self)@.asked(OwnerStep::Poll { reply }),
    {
        let reply = self.owner.poll();
        proof {
            self.log@ = self.log@.push(OwnerStep::Poll { reply });
        }
        reply
    }

    pub fn wait_idle(&mut self) -> (reply: Result<(), RhiError>)
        ensures
            exists|asked: &mut O|
                {
                    &&& *asked == old(self).spec_owner()
                    &&& *final(asked) == final(self).spec_owner()
                    &&& #[trigger] call_ensures(O::wait_idle, (asked,), reply)
                },
            final(self)@ == old(self)@.asked(OwnerStep::WaitIdle { reply }),
    {
        let reply = self.owner.wait_idle();
        proof {
            self.log@ = self.log@.push(OwnerStep::WaitIdle { reply });
        }
        reply
    }

    pub fn supports_presentation(&mut self, target: ObjectId) -> (reply: Result<bool, RhiError>)
        ensures
            exists|asked: &mut O|
                {
                    &&& *asked == old(self).spec_owner()
                    &&& *final(asked) == final(self).spec_owner()
                    &&& #[trigger] call_ensures(O::supports_presentation, (asked, target), reply)
                },
            final(self)@ == old(self)@.asked(OwnerStep::SupportsPresentation { target, reply }),
    {
        let reply = self.owner.supports_presentation(target);
        proof {
            self.log@ = self.log@.push(OwnerStep::SupportsPresentation { target, reply });
        }
        reply
    }

    pub fn presentation_capabilities(&mut self, target: ObjectId) -> (reply: Result<PresentationTargetCapabilities, RhiError>)
        ensures
            exists|asked: &mut O|
                {
                    &&& *asked == old(self).spec_owner()
                    &&& *final(asked) == final(self).spec_owner()
                    &&& #[trigger] call_ensures(O::presentation_capabilities, (asked, target), reply)
                },
            final(self)@ == old(self)@.asked(OwnerStep::PresentationCapabilities { target, reply }),
    {
        let reply = self.owner.presentation_capabilities(target);
        proof {
            self.log@ = self.log@.push(OwnerStep::PresentationCapabilities { target, reply });
        }
        reply
    }

    pub fn configure_presentation(&mut self, target: ObjectId) -> (reply: Result<GlPresentationLease, RhiError>)
        ensures
            exists|asked: &mut O|
                {
                    &&& *asked == old(self).spec_owner()
                    &&& *final(asked) == final(self).spec_owner()
                    &&& #[trigger] call_ensures(O::configure_presentation, (asked, target), reply)
                },
            final(self)@ == old(self)@.asked(OwnerStep::ConfigurePresentation { target, reply }),
    {
        let reply = self.owner.configure_presentation(target);
        proof {
            self.log@ = self.log@.push(OwnerStep::ConfigurePresentation { target, reply });
        }
        reply
    }

    pub fn lease_capabilities(&mut self, lease: GlPresentationLease) -> (reply: Result<PresentationTargetCapabilities, RhiError>)
        ensures
            exists|asked: &mut O|
                {
                    &&& *asked == old(self).spec_owner()
                    &&& *final(asked) == final(self).spec_owner()
                    &&& #[trigger] call_ensures(O::lease_capabilities, (asked, lease), reply)
                },
            final(self)@ == old(self)@.asked(OwnerStep::LeaseCapabilities { lease, reply }),
    {
        let reply = self.owner.lease_capabilities(lease);
        proof {
            self.log@ = self.log@.push(OwnerStep::LeaseCapabilities { lease, reply });
        }
        reply
    }

    pub fn reconfigure_or_register_waker(&mut self, lease: GlPresentationLease, waiter: u64) -> (reply: Progress<Result<(), RhiError>>)
        ensures
            exists|asked: &mut O|
                {
                    &&& *asked == old(self).spec_owner()
                    &&& *final(asked) == final(self).spec_owner()
                    &&& #[trigger] call_ensures(O::reconfigure_or_register_waker, (asked, lease, waiter), reply)
                },
            final(self)@ == old(self)@.asked(OwnerStep::Reconfigure { lease, waiter, reply }),
    {
        let reply = self.owner.reconfigure_or_register_waker(lease, waiter);
        proof {
            self.log@ = self.log@.push(OwnerStep::Reconfigure { lease, waiter, reply });
        }
        reply
    }

    pub fn try_acquire(&mut self, lease: GlPresentationLease) -> (reply: Result<Option<GlAcquiredFramebuffer>, AcquireError>)
        ensures
            exists|asked: &mut O|
                {
                    &&& *asked == old(self).spec_owner()
                    &&& *final(asked) == final(self).spec_owner()
                    &&& #[trigger] call_ensures(O::try_acquire, (asked, lease), reply)
                },
            final(self)@ == old(self)@.asked(OwnerStep::TryAcquire { lease, reply }),
    {
        let reply = self.owner.try_acquire(lease);
        proof {
            self.log@ = self.log@.push(OwnerStep::TryAcquire { lease, reply });
        }
        reply
    }

    pub fn acquire_or_register_waker(&mut self, lease: GlPresentationLease, waiter: u64) -> (reply: Progress<Result<GlAcquiredFramebuffer, AcquireError>>)
        ensures
            exists|asked: &mut O|
                {
                    &&& *asked == old(self).spec_owner()
                    &&& *final(asked) == final(self).spec_owner()
                    &&& #[trigger] call_ensures(O::acquire_or_register_waker, (asked, lease, waiter), reply)
                },
            final(self)@ == old(self)@.asked(OwnerStep::AwaitFrame { lease, waiter, reply }),
    {
        let reply = self.owner.acquire_or_register_waker(lease, waiter);
        proof {
            self.log@ = self.log@.push(OwnerStep::AwaitFrame { lease, waiter, reply });
        }
        reply
    }

    pub fn abandon(&mut self, lease: GlPresentationLease) -> (reply: Result<(), RhiError>)
        ensures
            exists|asked: &mut O|
                {
                    &&& *asked == old(self).spec_owner()
                    &&& *final(asked) == final(self).spec_owner()
                    &&& #[trigger] call_ensures(O::abandon, (asked, lease), reply)
                },
            final(self)@ == old(self)@.asked(OwnerStep::Abandon { lease, reply }),
    {
        let reply = self.owner.abandon(lease);
        proof {
            self.log@ = self.log@.push(OwnerStep::Abandon { lease, reply });
        }
        reply
    }

    pub fn release_presentation(&mut self, lease: GlPresentationLease)
        ensures
            exists|asked: &mut O|
                {
                    &&& *asked == old(self).spec_owner()
                    &&& *final(asked) == final(self).spec_owner()
                    &&& #[trigger] call_ensures(O::release_presentation, (asked, lease), ())
                },
            final(self)@ == old(self)@.asked(OwnerStep::Release { lease }),
    {
        self.owner.release_presentation(lease);
        proof {
            self.log@ = self.log@.push(OwnerStep::Release { lease });
        }
    }

    pub fn present(&mut self, frame: GlAcquiredFramebuffer, receipt: u64)
        ensures
            exists|asked: &mut O|
                {
                    &&& *asked == old(self).spec_owner()
                    &&& *final(asked) == final(self).spec_owner()
                    &&& #[trigger] call_ensures(O::present, (asked, frame, receipt), ())
                },
            final(self)@ == old(self)@.asked(OwnerStep::Present { frame, receipt }),
    {
        self.owner.present(frame, receipt);
        proof {
            self.log@ = self.log@.push(OwnerStep::Present { frame, receipt });
        }
    }

    pub fn terminate_present(&mut self, frame: GlAcquiredFramebuffer, receipt: u64, state: PresentState)
        ensures
            exists|asked: &mut O|
                {
                    &&& *asked == old(self).spec_owner()
                    &&& *final(asked) == final(self).spec_owner()
                    &&& #[trigger] call_ensures(O::terminate_present, (asked, frame, receipt, state), ())
                },
            final(self)@ == old(self)@.asked(OwnerStep::TerminatePresent { frame, receipt, state }),
    {
        self.owner.terminate_present(frame, receipt, state);
        proof {
            self.log@ = self.log@.push(OwnerStep::TerminatePresent { frame, receipt, state });
        }
    }

    pub fn present_state(&mut self, receipt: u64) -> (reply: Result<PresentState, RhiError>)
        ensures
            exists|asked: &mut O|
                {
                    &&& *asked == old(self).spec_owner()
                    &&& *final(asked) == final(self).spec_owner()
                    &&& #[trigger] call_ensures(O::present_state, (asked, receipt), reply)
                },
            final(self)@ == old(self)@.asked(OwnerStep::PresentStateOf { receipt, reply }),
    {
        let reply = self.owner.present_state(receipt);
        proof {
            self.log@ = self.log@.push(OwnerStep::PresentStateOf { receipt, reply });
        }
        reply
    }

    pub fn present_state_or_register_waker(&mut self, receipt: u64, waiter: u64) -> (reply: Result<PresentState, RhiError>)
        ensures
            exists|asked: &mut O|
                {
                    &&& *asked == old(self).spec_owner()
                    &&& *final(asked) == final(self).spec_owner()
                    &&& #[trigger] call_ensures(O::present_state_or_register_waker, (asked, receipt, waiter), reply)
                },
            final(self)@ == old(self)@.asked(OwnerStep::AwaitPresent { receipt, waiter, reply }),
    {
        let reply = self.owner.present_state_or_register_waker(receipt, waiter);
        proof {
            self.log@ = self.log@.push(OwnerStep::AwaitPresent { receipt, waiter, reply });
        }
        reply
    }

    pub fn device_lost(&mut self, info: &DeviceLossInfo)
        ensures
            exists|asked: &mut O|
                {
                    &&& *asked == old(self).spec_owner()
                    &&& *final(asked) == final(self).spec_owner()
                    &&& #[trigger] call_ensures(O::device_lost, (asked, info), ())
                },
            final(self)@ == old(self)@.asked(OwnerStep::DeviceLost { info: *info }),
    {
        self.owner.device_lost(info);
        proof {
            self.log@ = self.log@.push(OwnerStep::DeviceLost { info: *info });
        }
    }
}

impl<O: NativeGlOwner> GlExecutionDriver for NativeGlDriver<O> {
    fn dispatch(&mut self, operation: &'static str) -> (reply: Result<(), RhiError>)
        ensures
            exists|asked: &mut O|
                {
                    &&& *asked == old(self).spec_owner()
                    &&& *final(asked) == final(self).spec_owner()
                    &&& #[trigger] call_ensures(O::dispatch, (asked, operation), reply)
                },
            final(self)@ == old(self)@.asked(OwnerStep::Dispatch { operation, reply }),
    {
        NativeGlDriver::dispatch(self, operation)
    }

    fn install_loss_sink(&mut self, device: ObjectId)
        ensures
            final(self).spec_owner() == old(self).spec_owner(),
            final(self)@ == old(self)@.listened_to(device),
    {
        NativeGlDriver::install_loss_sink(self, device);
    }

    fn take_losses(&mut self, device: ObjectId) -> (reply: Vec<DeviceLossInfo>)
        ensures
            reply@ == losses_of(old(self)@.reported, device),
            final(self).spec_owner() == old(self).spec_owner(),
            final(self)@ == old(self)@.told(device),
    {
        NativeGlDriver::take_losses(self, device)
    }

    fn create_buffer(&mut self, desc: &BufferDescriptor) -> (reply: Result<GlObjectName, RhiError>)
        ensures
            exists|asked: &mut O|
                {
                    &&& *asked == old(self).spec_owner()
                    &&& *final(asked) == final(self).spec_owner()
                    &&& #[trigger] call_ensures(O::create_buffer, (asked, desc), reply)
                },
            final(self)@ == old(self)@.asked(OwnerStep::CreateBuffer { desc: *desc, reply }),
    {
        NativeGlDriver::create_buffer(self, desc)
    }

    fn create_texture(&mut self, desc: &TextureDescriptor) -> (reply: Result<GlObjectName, RhiError>)
        ensures
            exists|asked: &mut O|
                {
                    &&& *asked == old(self).spec_owner()
                    &&& *final(asked) == final(self).spec_owner()
                    &&& #[trigger] call_ensures(O::create_texture, (asked, desc), reply)
                },
            final(self)@ == old(self)@.asked(OwnerStep::CreateTexture { desc: *desc, reply }),
    {
        NativeGlDriver::create_texture(self, desc)
    }

    fn create_texture_view(&mut self, texture: GlTextureRef, desc: &TextureViewDescriptor) -> (reply: Result<GlObjectName, RhiError>)
        ensures
            exists|asked: &mut O|
                {
                    &&& *asked == old(self).spec_owner()
                    &&& *final(asked) == final(self).spec_owner()
                    &&& #[trigger] call_ensures(O::create_texture_view, (asked, texture, desc), reply)
                },
            final(self)@ == old(self)@.asked(OwnerStep::CreateTextureView { texture, desc: *desc, reply }),
    {
        NativeGlDriver::create_texture_view(self, texture, desc)
    }

    fn create_sampler(&mut self, desc: &SamplerDescriptor) -> (reply: Result<GlObjectName, RhiError>)
        ensures
            exists|asked: &mut O|
                {
                    &&& *asked == old(self).spec_owner()
                    &&& *final(asked) == final(self).spec_owner()
                    &&& #[trigger] call_ensures(O::create_sampler, (asked, desc), reply)
                },
            final(self)@ == old(self)@.asked(OwnerStep::CreateSampler { desc: *desc, reply }),
    {
        NativeGlDriver::create_sampler(self, desc)
    }

    fn create_query_set(&mut self, desc: &QuerySetDescriptor) -> (reply: Result<GlObjectName, RhiError>)
        ensures
            exists|asked: &mut O|
                {
                    &&& *asked == old(self).spec_owner()
                    &&& *final(asked) == final(self).spec_owner()
                    &&& #[trigger] call_ensures(O::create_query_set, (asked, desc), reply)
                },
            final(self)@ == old(self)@.asked(OwnerStep::CreateQuerySet { desc: *desc, reply }),
    {
        NativeGlDriver::create_query_set(self, desc)
    }

    fn create_shader(&mut self, artifact: &ShaderArtifact) -> (reply: Result<GlObjectName, RhiError>)
        ensures
            exists|asked: &mut O|
                {
                    &&& *asked == old(self).spec_owner()
                    &&& *final(asked) == final(self).spec_owner()
                    &&& #[trigger] call_ensures(O::create_shader, (asked, artifact), reply)
                },
            final(self)@ == old(self)@.asked(OwnerStep::CreateShader { artifact: *artifact, reply }),
    {
        NativeGlDriver::create_shader(self, artifact)
    }

    fn create_bind_group(&mut self, packet: Arc<GlBindGroupPacket>) -> (reply: Result<GlObjectName, RhiError>)
        ensures
            exists|asked: &mut O|
                {
                    &&& *asked == old(self).spec_owner()
                    &&& *final(asked) == final(self).spec_owner()
                    &&& #[trigger] call_ensures(O::create_bind_group, (asked, packet), reply)
                },
            final(self)@ == old(self)@.asked(OwnerStep::CreateBindGroup { packet: packet@, reply }),
    {
        NativeGlDriver::create_bind_group(self, packet)
    }

    fn create_compute_pipeline(&mut self, desc: &ComputePipelineDescriptor, shader: GlShaderRef) -> (reply: Result<GlObjectName, RhiError>)
        ensures
            exists|asked: &mut O|
                {
                    &&& *asked == old(self).spec_owner()
                    &&& *final(asked) == final(self).spec_owner()
                    &&& #[trigger] call_ensures(O::create_compute_pipeline, (asked, desc, shader), reply)
                },
            final(self)@ == old(self)@.asked(OwnerStep::CreateComputePipeline { desc: *desc, shader, reply }),
    {
        NativeGlDriver::create_compute_pipeline(self, desc, shader)
    }

    fn create_raster_pipeline(&mut self, desc: &RasterPipelineDescriptor, vertex: GlShaderRef, fragment: Option<GlShaderRef>) -> (reply: Result<GlObjectName, RhiError>)
        ensures
            exists|asked: &mut O|
                {
                    &&& *asked == old(self).spec_owner()
                    &&& *final(asked) == final(self).spec_owner()
                    &&& #[trigger] call_ensures(O::create_raster_pipeline, (asked, desc, vertex, fragment), reply)
                },
            final(self)@ == old(self)@.asked(OwnerStep::CreateRasterPipeline { desc: *desc, vertex, fragment, reply }),
    {
        NativeGlDriver::create_raster_pipeline(self, desc, vertex, fragment)
    }

    fn map_buffer(&mut self, buffer: GlBufferRef, mode: MapMode, range: BufferRange) -> (reply: Result<u64, RhiError>)
        ensures
            exists|asked: &mut O|
                {
                    &&& *asked == old(self).spec_owner()
                    &&& *final(asked) == final(self).spec_owner()
                    &&& #[trigger] call_ensures(O::map_buffer, (asked, buffer, mode, range), reply)
                },
            final(self)@ == old(self)@.asked(OwnerStep::MapBuffer { buffer, mode, range, reply }),
    {
        NativeGlDriver::map_buffer(self, buffer, mode, range)
    }

    fn submit(&mut self, plan: &GlSubmissionPlan) -> (result: Result<SubmissionOutcome, RhiError>)
        ensures
            match preflight_refusal(plan.batches@) {
                Some(error) => {
                    &&& *final(self) == *old(self)
                    &&& result == Err::<SubmissionOutcome, _>(error)
                },
                None => {
                    &&& final(self)@ == old(self)@.asked(
                        OwnerStep::Submit { batches: plan@, reply: result },
                    )
                    &&& exists|asked: &mut O|
                        {
                            &&& *asked == old(self).spec_owner()
                            &&& *final(asked) == final(self).spec_owner()
                            &&& #[trigger] call_ensures(O::submit, (asked, plan), result)
                        }
                },
            },
    {
        NativeGlDriver::submit(self, plan)
    }

    fn completion(&mut self, serial: u64) -> (reply: CompletionState)
        ensures
            exists|asked: &mut O|
                {
                    &&& *asked == old(self).spec_owner()
                    &&& *final(asked) == final(self).spec_owner()
                    &&& #[trigger] call_ensures(O::completion, (asked, serial), reply)
                },
            final(self)@ == old(self)@.asked(OwnerStep::Completion { serial, reply }).seeing(reply),
    {
        NativeGlDriver::completion(self, serial)
    }

    fn completion_or_register_waker(&mut self, serial: u64, waiter: u64) -> (reply: CompletionState)
        ensures
            exists|asked: &mut O|
                {
                    &&& *asked == old(self).spec_owner()
                    &&& *final(asked) == final(self).spec_owner()
                    &&& #[trigger] call_ensures(O::completion_or_register_waker, (asked, serial, waiter), reply)
                },
            final(self)@ == old(self)@.asked(OwnerStep::AwaitCompletion { serial, waiter, reply }).seeing(reply),
    {
        NativeGlDriver::completion_or_register_waker(self, serial, waiter)
    }

    fn destroy(&mut self, kind: GlObjectKind, name: GlObjectName)
        ensures
            exists|asked: &mut O|
                {
                    &&& *asked == old(self).spec_owner()
                    &&& *final(asked) == final(self).spec_owner()
                    &&& #[trigger] call_ensures(O::destroy, (asked, kind, name), ())
                },
            final(self)@ == old(self)@.asked(OwnerStep::Destroy { kind, name }),
    {
        NativeGlDriver::destroy(self, kind, name);
    }

    fn poll(&mut self) -> (reply: Result<(), RhiError>)
        ensures
            exists|asked: &mut O|
                {
                    &&& *asked == old(self).spec_owner()
                    &&& *final(asked) == final(self).spec_owner()
                    &&& #[trigger] call_ensures(O::poll, (asked,), reply)
                },
            final(self)@ == old(self)@.asked(OwnerStep::Poll { reply }),
    {
        NativeGlDriver::poll(self)
    }

    fn wait_idle(&mut self) -> (reply: Result<(), RhiError>)
        ensures
            exists|asked: &mut O|
                {
                    &&& *asked == old(self).spec_owner()
                    &&& *final(asked) == final(self).spec_owner()
                    &&& #[trigger] call_ensures(O::wait_idle, (asked,), reply)
                },
            final(self)@ == old(self)@.asked(OwnerStep::WaitIdle { reply }),
    {
        NativeGlDriver::wait_idle(self)
    }

    fn supports_presentation(&mut self, target: ObjectId) -> (reply: Result<bool, RhiError>)
        ensures
            exists|asked: &mut O|
                {
                    &&& *asked == old(self).spec_owner()
                    &&& *final(asked) == final(self).spec_owner()
                    &&& #[trigger] call_ensures(O::supports_presentation, (asked, target), reply)
                },
            final(self)@ == old(self)@.asked(OwnerStep::SupportsPresentation { target, reply }),
    {
        NativeGlDriver::supports_presentation(self, target)
    }

    fn presentation_capabilities(&mut self, target: ObjectId) -> (reply: Result<PresentationTargetCapabilities, RhiError>)
        ensures
            exists|asked: &mut O|
                {
                    &&& *asked == old(self).spec_owner()
                    &&& *final(asked) == final(self).spec_owner()
                    &&& #[trigger] call_ensures(O::presentation_capabilities, (asked, target), reply)
                },
            final(self)@ == old(self)@.asked(OwnerStep::PresentationCapabilities { target, reply }),
    {
        NativeGlDriver::presentation_capabilities(self, target)
    }

    fn configure_presentation(&mut self, target: ObjectId) -> (reply: Result<GlPresentationLease, RhiError>)
        ensures
            exists|asked: &mut O|
                {
                    &&& *asked == old(self).spec_owner()
                    &&& *final(asked) == final(self).spec_owner()
                    &&& #[trigger] call_ensures(O::configure_presentation, (asked, target), reply)
                },
            final(self)@ == old(self)@.asked(OwnerStep::ConfigurePresentation { target, reply }),
    {
        NativeGlDriver::configure_presentation(self, target)
    }

    fn lease_capabilities(&mut self, lease: GlPresentationLease) -> (reply: Result<PresentationTargetCapabilities, RhiError>)
        ensures
            exists|asked: &mut O|
                {
                    &&& *asked == old(self).spec_owner()
                    &&& *final(asked) == final(self).spec_owner()
                    &&& #[trigger] call_ensures(O::lease_capabilities, (asked, lease), reply)
                },
            final(self)@ == old(self)@.asked(OwnerStep::LeaseCapabilities { lease, reply }),
    {
        NativeGlDriver::lease_capabilities(self, lease)
    }

    fn reconfigure_or_register_waker(&mut self, lease: GlPresentationLease, waiter: u64) -> (reply: Progress<Result<(), RhiError>>)
        ensures
            exists|asked: &mut O|
                {
                    &&& *asked == old(self).spec_owner()
                    &&& *final(asked) == final(self).spec_owner()
                    &&& #[trigger] call_ensures(O::reconfigure_or_register_waker, (asked, lease, waiter), reply)
                },
            final(self)@ == old(self)@.asked(OwnerStep::Reconfigure { lease, waiter, reply }),
    {
        NativeGlDriver::reconfigure_or_register_waker(self, lease, waiter)
    }

    fn try_acquire(&mut self, lease: GlPresentationLease) -> (reply: Result<Option<GlAcquiredFramebuffer>, AcquireError>)
        ensures
            exists|asked: &mut O|
                {
                    &&& *asked == old(self).spec_owner()
                    &&& *final(asked) == final(self).spec_owner()
                    &&& #[trigger] call_ensures(O::try_acquire, (asked, lease), reply)
                },
            final(self)@ == old(self)@.asked(OwnerStep::TryAcquire { lease, reply }),
    {
        NativeGlDriver::try_acquire(self, lease)
    }

    fn acquire_or_register_waker(&mut self, lease: GlPresentationLease, waiter: u64) -> (reply: Progress<Result<GlAcquiredFramebuffer, AcquireError>>)
        ensures
            exists|asked: &mut O|
                {
                    &&& *asked == old(self).spec_owner()
                    &&& *final(asked) == final(self).spec_owner()
                    &&& #[trigger] call_ensures(O::acquire_or_register_waker, (asked, lease, waiter), reply)
                },
            final(self)@ == old(self)@.asked(OwnerStep::AwaitFrame { lease, waiter, reply }),
    {
        NativeGlDriver::acquire_or_register_waker(self, lease, waiter)
    }

    fn abandon(&mut self, lease: GlPresentationLease) -> (reply: Result<(), RhiError>)
        ensures
            exists|asked: &mut O|
                {
                    &&& *asked == old(self).spec_owner()
                    &&& *final(asked) == final(self).spec_owner()
                    &&& #[trigger] call_ensures(O::abandon, (asked, lease), reply)
                },
            final(self)@ == old(self)@.asked(OwnerStep::Abandon { lease, reply }),
    {
        NativeGlDriver::abandon(self, lease)
    }

    fn release_presentation(&mut self, lease: GlPresentationLease)
        ensures
            exists|asked: &mut O|
                {
                    &&& *asked == old(self).spec_owner()
                    &&& *final(asked) == final(self).spec_owner()
                    &&& #[trigger] call_ensures(O::release_presentation, (asked, lease), ())
                },
            final(self)@ == old(self)@.asked(OwnerStep::Release { lease }),
    {
        NativeGlDriver::release_presentation(self, lease);
    }

    fn present(&mut self, frame: GlAcquiredFramebuffer, receipt: u64)
        ensures
            exists|asked: &mut O|
                {
                    &&& *asked == old(self).spec_owner()
                    &&& *final(asked) == final(self).spec_owner()
                    &&& #[trigger] call_ensures(O::present, (asked, frame, receipt), ())
                },
            final(self)@ == old(self)@.asked(OwnerStep::Present { frame, receipt }),
    {
        NativeGlDriver::present(self, frame, receipt);
    }

    fn terminate_present(&mut self, frame: GlAcquiredFramebuffer, receipt: u64, state: PresentState)
        ensures
            exists|asked: &mut O|
                {
                    &&& *asked == old(self).spec_owner()
                    &&& *final(asked) == final(self).spec_owner()
                    &&& #[trigger] call_ensures(O::terminate_present, (asked, frame, receipt, state), ())
                },
            final(self)@ == old(self)@.asked(OwnerStep::TerminatePresent { frame, receipt, state }),
    {
        NativeGlDriver::terminate_present(self, frame, receipt, state);
    }

    fn present_state(&mut self, receipt: u64) -> (reply: Result<PresentState, RhiError>)
        ensures
            exists|asked: &mut O|
                {
                    &&& *asked == old(self).spec_owner()
                    &&& *final(asked) == final(self).spec_owner()
                    &&& #[trigger] call_ensures(O::present_state, (asked, receipt), reply)
                },
            final(self)@ == old(self)@.asked(OwnerStep::PresentStateOf { receipt, reply }),
    {
        NativeGlDriver::present_state(self, receipt)
    }

    fn present_state_or_register_waker(&mut self, receipt: u64, waiter: u64) -> (reply: Result<PresentState, RhiError>)
        ensures
            exists|asked: &mut O|
                {
                    &&& *asked == old(self).spec_owner()
                    &&& *final(asked) == final(self).spec_owner()
                    &&& #[trigger] call_ensures(O::present_state_or_register_waker, (asked, receipt, waiter), reply)
                },
            final(self)@ == old(self)@.asked(OwnerStep::AwaitPresent { receipt, waiter, reply }),
    {
        NativeGlDriver::present_state_or_register_waker(self, receipt, waiter)
    }

    fn device_lost(&mut self, info: &DeviceLossInfo)
        ensures
            exists|asked: &mut O|
                {
                    &&& *asked == old(self).spec_owner()
                    &&& *final(asked) == final(self).spec_owner()
                    &&& #[trigger] call_ensures(O::device_lost, (asked, info), ())
                },
            final(self)@ == old(self)@.asked(OwnerStep::DeviceLost { info: *info }),
    {
        NativeGlDriver::device_lost(self, info);
    }
}

} // verus!
