//! Errors of the portable interface and of the GL driver seam.

use vstd::prelude::*;
use std::sync::Arc;
use crate::api::format::TextureFormat;
use crate::api::identity::OwnerThreadIdentity;
use crate::api::pipeline::VertexFormat;
use crate::api::shader::{AbiVersion, ResourceLocation};
use crate::exact::Share;

verus! {

/// The text of a diagnostic: one that the library knows, or one that a driver
/// handed in.
#[derive(Debug)]
pub enum Message {
    Text(&'static str),
    Owned(Arc<String>),
}

impl Message {
    /// The characters of the text.
    pub open spec fn text(self) -> Seq<char> {
        match self {
            Message::Text(text) => text@,
            Message::Owned(text) => (*text)@,
        }
    }

    /// The text as a string slice.
    pub fn as_str(&self) -> (result: &str)
        ensures
            result@ == self.text(),
    {
        match self {
            Message::Text(text) => text,
            Message::Owned(text) => text.as_str(),
        }
    }

    /// A text that a driver handed in.
    pub fn owned(text: String) -> (result: Self)
        ensures
            result == Message::Owned(Arc::new(text)),
            result.text() == text@,
    {
        Message::Owned(Arc::new(text))
    }
}

impl Share for Message {
    fn share(&self) -> (result: Self) {
        match self {
            Message::Text(text) => Message::Text(*text),
            Message::Owned(text) => Message::Owned(Arc::clone(text)),
        }
    }
}

/// What a context is able to do.
#[derive(Clone, Copy, Debug, PartialEq, Eq, Structural)]
pub enum GlContextLifecycle {
    Active,
    Suspended,
    Lost,
    Restoring,
    Poisoned,
    Disposed,
}

impl GlContextLifecycle {
    /// Whether the context takes commands.
    pub fn accepts_commands(self) -> (result: bool)
        ensures
            result == (self is Active),
    {
        match self {
            GlContextLifecycle::Active => true,
            _ => false,
        }
    }

    /// The error with which a context refuses an operation.
    pub open spec fn spec_refusal(self, operation: &'static str) -> GlError {
        match self {
            GlContextLifecycle::Lost => GlError::ContextLost { operation },
            GlContextLifecycle::Disposed => GlError::Disposed { operation },
            GlContextLifecycle::Poisoned => GlError::Poisoned { operation },
            _ => GlError::InvalidLifecycle { operation, lifecycle: self },
        }
    }

    pub fn refusal(self, operation: &'static str) -> (result: GlError)
        ensures
            result == self.spec_refusal(operation),
    {
        match self {
            GlContextLifecycle::Lost => GlError::ContextLost { operation },
            GlContextLifecycle::Disposed => GlError::Disposed { operation },
            GlContextLifecycle::Poisoned => GlError::Poisoned { operation },
            _ => GlError::InvalidLifecycle { operation, lifecycle: self },
        }
    }
}

/// A failure below the portable interface.
#[derive(Debug)]
pub enum GlError {
    /// The context is lost.
    ContextLost { operation: &'static str },
    /// The context was disposed of.
    Disposed { operation: &'static str },
    /// A failure half way left the context in an unknown state.
    Poisoned { operation: &'static str },
    /// The context cannot do this in its present state.
    InvalidLifecycle { operation: &'static str, lifecycle: GlContextLifecycle },
    /// The context has no route for this.
    Unsupported { operation: &'static str, reason: &'static str },
    /// The driver ran out of memory.
    OutOfMemory { operation: &'static str },
    /// The object belongs to another context generation.
    WrongContext { operation: &'static str },
    /// The object is gone.
    StaleObject { operation: &'static str },
    /// The call came from a thread that does not own the context.
    WrongThread {
        operation: &'static str,
        expected: OwnerThreadIdentity,
        actual: OwnerThreadIdentity,
    },
    /// The arguments cannot be lowered.
    Validation { operation: &'static str, message: Message },
    /// The driver reported a failure.
    Driver { operation: &'static str, message: Message },
}

impl Share for GlError {
    fn share(&self) -> (result: Self) {
        match self {
            GlError::ContextLost { operation } => GlError::ContextLost { operation: *operation },
            GlError::Disposed { operation } => GlError::Disposed { operation: *operation },
            GlError::Poisoned { operation } => GlError::Poisoned { operation: *operation },
            GlError::InvalidLifecycle { operation, lifecycle } => GlError::InvalidLifecycle {
                operation: *operation,
                lifecycle: *lifecycle,
            },
            GlError::Unsupported { operation, reason } => GlError::Unsupported {
                operation: *operation,
                reason: *reason,
            },
            GlError::OutOfMemory { operation } => GlError::OutOfMemory { operation: *operation },
            GlError::WrongContext { operation } => GlError::WrongContext { operation: *operation },
            GlError::StaleObject { operation } => GlError::StaleObject { operation: *operation },
            GlError::WrongThread { operation, expected, actual } => GlError::WrongThread {
                operation: *operation,
                expected: *expected,
                actual: *actual,
            },
            GlError::Validation { operation, message } => GlError::Validation {
                operation: *operation,
                message: message.share(),
            },
            GlError::Driver { operation, message } => GlError::Driver {
                operation: *operation,
                message: message.share(),
            },
        }
    }
}

/// What went wrong, as a caller of the portable interface sees it.
#[derive(Clone, Copy, Debug, PartialEq, Eq, Structural)]
pub enum RhiErrorKind {
    BackendFailure,
    DeviceLost,
    InvalidUsage,
    OutOfMemory,
    Unsupported,
    WrongDevice,
}

/// Why an owner thread could not serve a request.
#[derive(Debug)]
pub enum WorkerStartupError {
    /// The factory that ran on the thread failed.
    Factory(Message),
    /// The thread could not be started, or it has ended.
    WorkerExited,
}

impl Share for WorkerStartupError {
    fn share(&self) -> (result: Self) {
        match self {
            WorkerStartupError::Factory(message) => WorkerStartupError::Factory(message.share()),
            WorkerStartupError::WorkerExited => WorkerStartupError::WorkerExited,
        }
    }
}

/// Why the state authority refused a pipeline.
#[derive(Clone, Copy, Debug, PartialEq, Eq, Structural)]
pub enum ContextStateError {
    UnknownPipeline,
    PipelineIdentityConflict,
}

/// The explanation of a portable error.
#[derive(Debug)]
pub enum RhiDetail {
    /// A text.
    Message(Message),
    /// A failure of the GL seam, and the operation that met it.
    Gl { operation: &'static str, error: GlError },
    /// A failure of the owner thread.
    Worker(WorkerStartupError),
    /// A refusal of the state authority.
    State(ContextStateError),
    /// A texture format without an exact counterpart.
    TextureFormat(TextureFormat),
    /// A vertex format without an exact counterpart.
    VertexFormat(VertexFormat),
    /// A shader that was built for another interface.
    ShaderAbi { required: AbiVersion, found: AbiVersion },
    /// A shader resource that cannot be found in a linked program.
    ShaderResource { reason: &'static str, location: ResourceLocation },
}

impl Share for RhiDetail {
    fn share(&self) -> (result: Self) {
        match self {
            RhiDetail::Message(message) => RhiDetail::Message(message.share()),
            RhiDetail::Gl { operation, error } => RhiDetail::Gl {
                operation: *operation,
                error: error.share(),
            },
            RhiDetail::Worker(error) => RhiDetail::Worker(error.share()),
            RhiDetail::State(error) => RhiDetail::State(*error),
            RhiDetail::TextureFormat(format) => RhiDetail::TextureFormat(*format),
            RhiDetail::VertexFormat(format) => RhiDetail::VertexFormat(*format),
            RhiDetail::ShaderAbi { required, found } => RhiDetail::ShaderAbi {
                required: *required,
                found: *found,
            },
            RhiDetail::ShaderResource { reason, location } => RhiDetail::ShaderResource {
                reason: *reason,
                location: *location,
            },
        }
    }
}

/// An error of the portable interface.
#[derive(Debug)]
pub struct RhiError {
    pub kind: RhiErrorKind,
    pub detail: RhiDetail,
    /// The operation that reported it.
    pub operation: Option<&'static str>,
}

/// The error with a text that the library knows and no operation yet.
pub open spec fn rhi_error(kind: RhiErrorKind, text: &'static str) -> RhiError {
    RhiError { kind, detail: RhiDetail::Message(Message::Text(text)), operation: None }
}

/// The error with a text that the library knows, at an operation.
pub open spec fn rhi_error_at(
    kind: RhiErrorKind,
    text: &'static str,
    operation: &'static str,
) -> RhiError {
    RhiError { kind, detail: RhiDetail::Message(Message::Text(text)), operation: Some(operation) }
}

impl RhiError {
    pub fn new(kind: RhiErrorKind, text: &'static str) -> (result: Self)
        ensures
            result == rhi_error(kind, text),
    {
        RhiError { kind, detail: RhiDetail::Message(Message::Text(text)), operation: None }
    }

    pub fn because(kind: RhiErrorKind, detail: RhiDetail) -> (result: Self)
        ensures
            result == (RhiError { kind, detail, operation: None }),
    {
        RhiError { kind, detail, operation: None }
    }

    /// The same error, reported by an operation.
    pub fn at(self, operation: &'static str) -> (result: Self)
        ensures
            result == (RhiError { operation: Some(operation), ..self }),
    {
        RhiError { kind: self.kind, detail: self.detail, operation: Some(operation) }
    }

    pub fn kind(&self) -> (result: RhiErrorKind)
        ensures
            result == self.kind,
    {
        self.kind
    }
}

impl Share for RhiError {
    fn share(&self) -> (result: Self) {
        RhiError { kind: self.kind, detail: self.detail.share(), operation: self.operation }
    }
}

/// Why a device is lost.
#[derive(Debug)]
pub struct DeviceLossInfo {
    pub cause: RhiDetail,
}

impl DeviceLossInfo {
    pub fn new(message: Message) -> (result: Self)
        ensures
            result == (DeviceLossInfo { cause: RhiDetail::Message(message) }),
    {
        DeviceLossInfo { cause: RhiDetail::Message(message) }
    }

    pub fn because(cause: RhiDetail) -> (result: Self)
        ensures
            result == (DeviceLossInfo { cause }),
    {
        DeviceLossInfo { cause }
    }

    /// The text that was reported, where the cause is a text.
    pub fn message(&self) -> (result: Option<&str>)
        ensures
            match self.cause {
                RhiDetail::Message(message) => result is Some && result->0@ == message.text(),
                _ => result is None,
            },
    {
        match &self.cause {
            RhiDetail::Message(message) => Some(message.as_str()),
            _ => None,
        }
    }
}

impl Share for DeviceLossInfo {
    fn share(&self) -> (result: Self) {
        DeviceLossInfo { cause: self.cause.share() }
    }
}

/// Why a submission failed for good.
#[derive(Debug)]
pub enum CompletionFailure {
    /// Nobody ever accepted a submission with this serial.
    NeverAccepted { serial: u64 },
    /// The fence reported a failure.
    Fence,
    /// A command failed.
    Cause(RhiDetail),
}

impl Share for CompletionFailure {
    fn share(&self) -> (result: Self) {
        match self {
            CompletionFailure::NeverAccepted { serial } => CompletionFailure::NeverAccepted {
                serial: *serial,
            },
            CompletionFailure::Fence => CompletionFailure::Fence,
            CompletionFailure::Cause(detail) => CompletionFailure::Cause(detail.share()),
        }
    }
}

/// How far a submission has come.
#[derive(Debug)]
pub enum CompletionState {
    Pending,
    Complete,
    DeviceLost(DeviceLossInfo),
    Failed(CompletionFailure),
}

} // verus!
