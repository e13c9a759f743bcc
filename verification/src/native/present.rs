//! Presenting: configured drawables, acquired frames and their receipts.

use vstd::prelude::*;
use crate::api::command::{GlAcquiredFramebuffer, GlPresentationLease};
use crate::api::error;
use crate::api::error::{GlError, RhiDetail, RhiError, RhiErrorKind};
use crate::api::format::TextureFormat;
use crate::api::gl::{GlSurfaceAcquire, GlSurfaceSize};
use crate::api::identity::ObjectId;
use crate::api::resource::Extent2d;
use crate::exact::Share;
use crate::native::link;
use crate::native::link::{
    unsupported, CommandModel, NativeCommand, NativePlatformContext, NativeProvider, NativeStep,
};
use crate::native::owner;
use crate::native::owner::{AcquiredImage, NativeOwnedProvider, Owner, PresentState};

verus! {

/// When a presented frame is shown.
#[derive(Clone, Copy, Debug, PartialEq, Eq, Structural)]
pub enum PresentMode {
    Automatic,
}

/// What a drawable can show. Its size is the host's to choose.
#[derive(Debug)]
pub struct PresentationTargetCapabilities {
    pub formats: Vec<TextureFormat>,
    pub modes: Vec<PresentMode>,
    /// The size that the host has chosen, if there is one.
    pub current: Option<Extent2d>,
}

/// How far something has come that can be waited for.
#[derive(Debug)]
pub enum Progress<T> {
    Pending,
    Ready(T),
}

/// What kept a frame from being acquired.
#[derive(Clone, Copy, Debug, PartialEq, Eq, Structural)]
pub enum AcquireErrorKind {
    NotReady,
    Outdated,
    DeviceLost,
}

/// The explanation of a failed acquire.
#[derive(Debug)]
pub enum AcquireDetail {
    Text(&'static str),
    Rhi(RhiDetail),
    /// The surface could not be resized.
    Resize(GlError),
    /// The surface gave no image.
    Surface(GlError),
}

/// Why a frame could not be acquired.
#[derive(Debug)]
pub struct AcquireError {
    pub kind: AcquireErrorKind,
    pub detail: AcquireDetail,
}

/// The capabilities of the drawable with this size.
pub open spec fn shows(
    result: Result<PresentationTargetCapabilities, RhiError>,
    outcome: Result<Option<Extent2d>, RhiError>,
) -> bool {
    match result {
        Ok(capabilities) => {
            &&& outcome == Ok::<_, RhiError>(capabilities.current)
            &&& capabilities.formats@ == seq![TextureFormat::Rgba8Unorm]
            &&& capabilities.modes@ == seq![PresentMode::Automatic]
        },
        Err(error) => outcome == Err::<Option<Extent2d>, _>(error),
    }
}

impl Owner {
    pub open spec fn drawable_extent(self, o: Seq<NativeStep>) -> (
        Owner,
        Result<Option<Extent2d>, RhiError>,
    ) {
        let reply = self.next(o)->Extent_reply;
        (self.asked(NativeStep::Extent { reply }), reply)
    }

    /// Whether the drawable can be shown.
    pub open spec fn supports_presentation(self, o: Seq<NativeStep>) -> (Owner, bool) {
        let reply = self.next(o)->Presentable_reply;
        (self.asked(NativeStep::Presentable { reply }), reply)
    }

    /// The size of the drawable, if it can be shown.
    pub open spec fn presentation_capabilities(self, o: Seq<NativeStep>) -> (
        Owner,
        Result<Option<Extent2d>, RhiError>,
    ) {
        let operation = "NativeProviderOwner::presentation_capabilities";
        let (current, outcome) = self.ready(operation, o);
        match outcome {
            Err(error) => (current, Err(error)),
            Ok(_ready) => {
                let (asked, shown) = current.supports_presentation(o);
                if !shown {
                    (asked, Err(link::unsupported_at(operation)))
                } else {
                    asked.drawable_extent(o)
                }
            },
        }
    }

    /// Configures the one drawable for its one target.
    pub open spec fn configure_presentation(self, target: ObjectId, o: Seq<NativeStep>) -> (
        Owner,
        Result<GlPresentationLease, RhiError>,
    ) {
        let operation = "NativeProviderOwner::configure_presentation";
        let (current, outcome) = self.ready(operation, o);
        match outcome {
            Err(error) => (current, Err(error)),
            Ok(_ready) => {
                let (asked, outcome) = current.presentation_capabilities(o);
                match outcome {
                    Err(error) => (asked, Err(error)),
                    Ok(_extent) => {
                        if asked.target is Some && asked.target->0 != target {
                            (asked, Err(link::unsupported_at(operation)))
                        } else {
                            let aimed = Owner { target: Some(target), ..asked };
                            if aimed.leases != Map::<u64, AcquiredImage>::empty() {
                                (
                                    aimed,
                                    Err(
                                        error::rhi_error_at(
                                            RhiErrorKind::InvalidUsage,
                                            "the native GL drawable already has a configured presentation lease",
                                            operation,
                                        ),
                                    ),
                                )
                            } else if aimed.next_lease == u64::MAX {
                                (
                                    aimed,
                                    Err(
                                        error::rhi_error_at(
                                            RhiErrorKind::BackendFailure,
                                            "native GL presentation lease space exhausted",
                                            operation,
                                        ),
                                    ),
                                )
                            } else {
                                (
                                    Owner {
                                        next_lease: (aimed.next_lease + 1) as u64,
                                        leases: aimed.leases.insert(aimed.next_lease, None),
                                        ..aimed
                                    },
                                    Ok(GlPresentationLease { id: aimed.next_lease }),
                                )
                            }
                        }
                    },
                }
            },
        }
    }

    pub open spec fn lease_capabilities(self, lease: GlPresentationLease, o: Seq<NativeStep>) -> (
        Owner,
        Result<Option<Extent2d>, RhiError>,
    ) {
        if !self.leases.contains_key(lease.id) {
            (
                self,
                Err(
                    error::rhi_error(
                        RhiErrorKind::InvalidUsage,
                        "native GL presentation lease is no longer live",
                    ),
                ),
            )
        } else {
            self.presentation_capabilities(o)
        }
    }

    /// Acquires the next frame. Without a size, or with one of nothing, there is
    /// none to acquire.
    pub open spec fn acquire_frame(self, lease: GlPresentationLease, o: Seq<NativeStep>) -> (
        Owner,
        Result<Option<GlAcquiredFramebuffer>, AcquireError>,
    ) {
        if !self.leases.contains_key(lease.id) {
            (
                self,
                Err(
                    acquire_text(
                        AcquireErrorKind::Outdated,
                        "native GL presentation lease is no longer live",
                    ),
                ),
            )
        } else if self.leases[lease.id] is Some {
            (
                self,
                Err(
                    acquire_text(
                        AcquireErrorKind::NotReady,
                        "native GL presentation frame is already acquired",
                    ),
                ),
            )
        } else {
            let (current, ready) = self.ready("NativeProviderOwner::acquire_presentation", o);
            match ready {
                Err(error) => (current, Err(acquire_lost(error))),
                Ok(_) => {
                    let (asked, extent) = current.drawable_extent(o);
                    match extent {
                        Err(error) => (asked, Err(acquire_lost(error))),
                        Ok(None) => (asked, Ok(None)),
                        Ok(Some(extent)) => if extent.width == 0 || extent.height == 0 {
                            (asked, Ok(None))
                        } else {
                            asked.acquire_sized(lease, extent, o)
                        },
                    }
                },
            }
        }
    }

    /// Acquires a frame of this size, after resizing the surface if it has
    /// another.
    pub open spec fn acquire_sized(
        self,
        lease: GlPresentationLease,
        extent: Extent2d,
        o: Seq<NativeStep>,
    ) -> (Owner, Result<Option<GlAcquiredFramebuffer>, AcquireError>) {
        let size = GlSurfaceSize { width: extent.width, height: extent.height };
        let known = self.next(o)->SurfaceExtent_reply;
        let asked = self.asked(NativeStep::SurfaceExtent { reply: known });
        let (sized, outcome) = if known != Some(size) {
            asked.command(CommandModel::Plain(NativeCommand::ResizeSurface(size)), o)
        } else {
            (asked, Ok(()))
        };
        match outcome {
            Err(error) => (
                sized,
                Err(
                    AcquireError {
                        kind: AcquireErrorKind::Outdated,
                        detail: AcquireDetail::Resize(error),
                    },
                ),
            ),
            Ok(_) => {
                let reply = sized.next(o)->AcquireSurface_reply;
                let taken = sized.asked(NativeStep::AcquireSurface { reply });
                match reply {
                    Err(error) => (
                        taken,
                        Err(
                            AcquireError {
                                kind: AcquireErrorKind::DeviceLost,
                                detail: AcquireDetail::Surface(error),
                            },
                        ),
                    ),
                    Ok(GlSurfaceAcquire::Suspended) => (taken, Ok(None)),
                    Ok(GlSurfaceAcquire::Lease(image)) => if taken.next_frame == u64::MAX {
                        (
                            taken,
                            Err(
                                acquire_text(
                                    AcquireErrorKind::NotReady,
                                    "native GL frame serial exhausted",
                                ),
                            ),
                        )
                    } else {
                        let serial = taken.next_frame;
                        (
                            Owner {
                                next_frame: (serial + 1) as u64,
                                leases: taken.leases.insert(lease.id, Some((serial, image))),
                                ..taken
                            },
                            Ok(
                                Some(
                                    GlAcquiredFramebuffer {
                                        serial,
                                        extent,
                                        suboptimal: false,
                                        lease,
                                        framebuffer: 0,
                                    },
                                ),
                            ),
                        )
                    },
                }
            },
        }
    }

    /// Ends the acquired frame of a drawable: by showing it, or by dropping
    /// it. A frame with another serial than the expected one stays.
    pub open spec fn end_frame(
        self,
        lease: GlPresentationLease,
        expected: Option<u64>,
        present: bool,
        o: Seq<NativeStep>,
    ) -> (Owner, Result<(), RhiError>) {
        let operation = "NativeProviderOwner::end_presentation_frame";
        let (current, outcome) = self.ready(operation, o);
        match outcome {
            Err(error) => (current, Err(error)),
            Ok(_ready) => {
                if !current.leases.contains_key(lease.id) {
                    (
                        current,
                        Err(
                            error::rhi_error_at(
                                RhiErrorKind::InvalidUsage,
                                "native GL presentation lease is no longer live",
                                operation,
                            ),
                        ),
                    )
                } else {
                    match current.leases[lease.id] {
                        None => {
                            (
                                current,
                                Err(
                                    error::rhi_error_at(
                                        RhiErrorKind::InvalidUsage,
                                        "native GL frame is not acquired",
                                        operation,
                                    ),
                                ),
                            )
                        },
                        Some((serial, image)) => if expected is Some && serial != expected->0 {
                            (
                                current,
                                Err(
                                    error::rhi_error_at(
                                        RhiErrorKind::InvalidUsage,
                                        "native GL frame serial does not match the currently acquired frame",
                                        operation,
                                    ),
                                ),
                            )
                        } else {
                            let ended = Owner { leases: current.leases.insert(lease.id, None), ..current };
                            if present {
                                let (shown, outcome) = ended.plain(
                                    NativeCommand::PresentSurface(image),
                                    operation,
                                    o,
                                );
                                match outcome {
                                    Err(error) => (shown, Err(error)),
                                    Ok(_) => {
                                        let reply = shown.next(o)->Flip_reply;
                                        (shown.asked(NativeStep::Flip { reply }), reply)
                                    },
                                }
                            } else {
                                ended.plain(
                                    NativeCommand::ConsumeSurface { operation, lease: image },
                                    operation,
                                    o,
                                )
                            }
                        },
                    }
                }
            },
        }
    }

    /// Drops the acquired frame, if there is one, and gives the drawable up.
    pub open spec fn release_presentation(self, lease: GlPresentationLease, o: Seq<NativeStep>) -> Owner {
        let (ended, _) = self.end_frame(lease, None, false, o);
        Owner { leases: ended.leases.remove(lease.id), ..ended }
    }

    /// Shows a frame, and notes under its receipt whether that worked.
    pub open spec fn present(
        self,
        frame: GlAcquiredFramebuffer,
        receipt: u64,
        o: Seq<NativeStep>,
    ) -> Owner {
        let (ended, outcome) = self.end_frame(frame.lease, Some(frame.serial), true, o);
        let state = match outcome {
            Ok(_) => PresentState::Accepted,
            Err(error) => PresentState::Failed(error.detail),
        };
        Owner { presents: ended.presents.insert(receipt, state), ..ended }
    }

    /// Drops a frame, and notes a state under its receipt.
    pub open spec fn terminate_present(
        self,
        frame: GlAcquiredFramebuffer,
        receipt: u64,
        state: PresentState,
        o: Seq<NativeStep>,
    ) -> Owner {
        let (ended, _) = self.end_frame(frame.lease, Some(frame.serial), false, o);
        Owner { presents: ended.presents.insert(receipt, state), ..ended }
    }

    /// What is noted under a receipt.
    pub open spec fn present_state(self, receipt: u64) -> Result<PresentState, RhiError> {
        if self.presents.contains_key(receipt) {
            Ok(self.presents[receipt])
        } else {
            Err(
                error::rhi_error(
                    RhiErrorKind::InvalidUsage,
                    "native GL present receipt was never accepted",
                ),
            )
        }
    }
}

/// A failed acquire with a text.
pub open spec fn acquire_text(kind: AcquireErrorKind, text: &'static str) -> AcquireError {
    AcquireError { kind, detail: AcquireDetail::Text(text) }
}

/// A failed acquire because the context is gone.
pub open spec fn acquire_lost(error: RhiError) -> AcquireError {
    AcquireError { kind: AcquireErrorKind::DeviceLost, detail: AcquireDetail::Rhi(error.detail) }
}

/// A frame that was acquired is the one that its drawable holds, under a
/// serial that no earlier frame has.
pub proof fn acquired_frames_are_held(
    owner: Owner,
    lease: GlPresentationLease,
    o: Seq<NativeStep>,
)
    ensures
        owner.acquire_frame(lease, o).1 matches Ok(Some(frame)) ==> {
            let after = owner.acquire_frame(lease, o).0;
            &&& frame.serial == owner.next_frame
            &&& after.next_frame == owner.next_frame + 1
            &&& frame.lease == lease
            &&& frame.extent.width > 0 && frame.extent.height > 0
            &&& after.leases.contains_key(lease.id)
            &&& after.leases[lease.id] matches Some((serial, _)) && serial == frame.serial
        },
{
}

/// A stale frame cannot end the newer frame of the same drawable: the drawable
/// keeps it, and nothing is shown or dropped.
pub proof fn stale_frames_end_nothing(
    owner: Owner,
    lease: GlPresentationLease,
    expected: u64,
    present: bool,
    o: Seq<NativeStep>,
)
    requires
        owner.leases.contains_key(lease.id),
        owner.leases[lease.id] matches Some((serial, _)) && serial != expected,
    ensures
        owner.end_frame(lease, Some(expected), present, o).1 is Err,
        owner.end_frame(lease, Some(expected), present, o).0.leases == owner.leases,
        owner.end_frame(lease, Some(expected), present, o).0 == owner.ready(
            "NativeProviderOwner::end_presentation_frame",
            o,
        ).0,
{
}

/// What is noted under a receipt is found there.
pub proof fn receipts_are_found(
    owner: Owner,
    frame: GlAcquiredFramebuffer,
    receipt: u64,
    state: PresentState,
    o: Seq<NativeStep>,
)
    ensures
        owner.terminate_present(frame, receipt, state, o).present_state(receipt) == Ok::<
            PresentState,
            RhiError,
        >(state),
        owner.present(frame, receipt, o).present_state(receipt) is Ok,
{
}

fn refused(kind: AcquireErrorKind, text: &'static str) -> (result: AcquireError)
    ensures
        result == acquire_text(kind, text),
{
    AcquireError { kind, detail: AcquireDetail::Text(text) }
}

fn lost(error: RhiError) -> (result: AcquireError)
    ensures
        result == acquire_lost(error),
{
    AcquireError { kind: AcquireErrorKind::DeviceLost, detail: AcquireDetail::Rhi(error.detail) }
}

impl<C: NativePlatformContext, P: NativeProvider> NativeOwnedProvider<C, P> {
    pub fn supports_presentation(&mut self) -> (result: bool)
        requires
            old(self).wf(),
        ensures
            final(self).wf(),
            link::grows(old(self)@.log, final(self)@.log),
            forall|o: Seq<NativeStep>|
                link::grows(final(self)@.log, o) ==> #[trigger] old(self)@.supports_presentation(o) == (
                    final(self)@,
                    result,
                ),
    {
        self.link.supports_presentation()
    }

    pub fn presentation_capabilities(&mut self) -> (result: Result<
        PresentationTargetCapabilities,
        RhiError,
    >)
        requires
            old(self).wf(),
        ensures
            final(self).wf(),
            link::grows(old(self)@.log, final(self)@.log),
            forall|o: Seq<NativeStep>|
                link::grows(final(self)@.log, o) ==> {
                    let (after, outcome) = #[trigger] old(self)@.presentation_capabilities(o);
                    after == final(self)@ && shows(result, outcome)
                },
    {
        let operation = "NativeProviderOwner::presentation_capabilities";
        match self.ready(operation) {
            Ok(()) => {},
            Err(error) => {
                return Err(error);
            },
        }
        if !self.link.supports_presentation() {
            return Err(unsupported(operation));
        }
        let current = match self.link.drawable_extent() {
            Ok(current) => current,
            Err(error) => {
                return Err(error);
            },
        };
        let mut formats: Vec<TextureFormat> = Vec::new();
        formats.push(TextureFormat::Rgba8Unorm);
        let mut modes: Vec<PresentMode> = Vec::new();
        modes.push(PresentMode::Automatic);
        assert(formats@ =~= seq![TextureFormat::Rgba8Unorm]);
        assert(modes@ =~= seq![PresentMode::Automatic]);
        Ok(PresentationTargetCapabilities { formats, modes, current })
    }

    pub fn configure_presentation(&mut self, target: ObjectId) -> (result: Result<
        GlPresentationLease,
        RhiError,
    >)
        requires
            old(self).wf(),
        ensures
            final(self).wf(),
            link::grows(old(self)@.log, final(self)@.log),
            forall|o: Seq<NativeStep>|
                link::grows(final(self)@.log, o) ==> #[trigger] old(self)@.configure_presentation(target, o) == (
                    final(self)@,
                    result,
                ),
    {
        let operation = "NativeProviderOwner::configure_presentation";
        match self.ready(operation) {
            Ok(()) => {},
            Err(error) => {
                return Err(error);
            },
        }
        match self.presentation_capabilities() {
            Ok(_) => {},
            Err(error) => {
                return Err(error);
            },
        }
        match self.target {
            Some(existing) => {
                if existing != target {
                    return Err(unsupported(operation));
                }
            },
            None => {
                self.target = Some(target);
            },
        }
        if !self.leases.is_empty() {
            return Err(
                RhiError::new(
                    RhiErrorKind::InvalidUsage,
                    "the native GL drawable already has a configured presentation lease",
                ).at(operation),
            );
        }
        let id: u64 = self.next_lease;
        if id == u64::MAX {
            return Err(
                RhiError::new(
                    RhiErrorKind::BackendFailure,
                    "native GL presentation lease space exhausted",
                ).at(operation),
            );
        }
        self.next_lease = id + 1;
        let _ = self.leases.insert(id, None);
        Ok(GlPresentationLease { id })
    }

    pub fn lease_capabilities(&mut self, lease: GlPresentationLease) -> (result: Result<
        PresentationTargetCapabilities,
        RhiError,
    >)
        requires
            old(self).wf(),
        ensures
            final(self).wf(),
            link::grows(old(self)@.log, final(self)@.log),
            forall|o: Seq<NativeStep>|
                link::grows(final(self)@.log, o) ==> {
                    let (after, outcome) = #[trigger] old(self)@.lease_capabilities(lease, o);
                    after == final(self)@ && shows(result, outcome)
                },
    {
        if !self.leases.contains_key(lease.id) {
            return Err(
                RhiError::new(
                    RhiErrorKind::InvalidUsage,
                    "native GL presentation lease is no longer live",
                ),
            );
        }
        self.presentation_capabilities()
    }

    /// A drawable that is configured again needs nothing but to be alive and
    /// showable.
    pub fn reconfigure_or_register_waker(&mut self, lease: GlPresentationLease, waiter: u64) -> (
        result: Progress<Result<(), RhiError>>)
        requires
            old(self).wf(),
        ensures
            final(self).wf(),
            link::grows(old(self)@.log, final(self)@.log),
            forall|o: Seq<NativeStep>|
                link::grows(final(self)@.log, o) ==> {
                    let (after, outcome) = #[trigger] old(self)@.lease_capabilities(lease, o);
                    after == final(self)@ && result == Progress::Ready(
                        match outcome {
                            Ok(_) => Ok::<(), RhiError>(()),
                            Err(error) => Err(error),
                        },
                    )
                },
    {
        match self.lease_capabilities(lease) {
            Ok(_) => Progress::Ready(Ok(())),
            Err(error) => Progress::Ready(Err(error)),
        }
    }

    /// Acquires the next frame of a drawable.
    pub fn try_acquire(&mut self, lease: GlPresentationLease) -> (result: Result<
        Option<GlAcquiredFramebuffer>,
        AcquireError,
    >)
        requires
            old(self).wf(),
        ensures
            final(self).wf(),
            link::grows(old(self)@.log, final(self)@.log),
            forall|o: Seq<NativeStep>|
                link::grows(final(self)@.log, o) ==> #[trigger] old(self)@.acquire_frame(lease, o) == (
                    final(self)@,
                    result,
                ),
    {
        match self.leases.get(lease.id) {
            None => {
                return Err(
                    refused(
                        AcquireErrorKind::Outdated,
                        "native GL presentation lease is no longer live",
                    ),
                );
            },
            Some(Some(_)) => {
                return Err(
                    refused(
                        AcquireErrorKind::NotReady,
                        "native GL presentation frame is already acquired",
                    ),
                );
            },
            Some(None) => {},
        }
        match self.ready("NativeProviderOwner::acquire_presentation") {
            Ok(()) => {},
            Err(error) => {
                return Err(lost(error));
            },
        }
        match self.link.drawable_extent() {
            Err(error) => Err(lost(error)),
            Ok(None) => Ok(None),
            Ok(Some(extent)) => if extent.width == 0 || extent.height == 0 {
                Ok(None)
            } else {
                self.acquire_sized(lease, extent)
            },
        }
    }

    fn acquire_sized(&mut self, lease: GlPresentationLease, extent: Extent2d) -> (result: Result<
        Option<GlAcquiredFramebuffer>,
        AcquireError,
    >)
        requires
            old(self).wf(),
        ensures
            final(self).wf(),
            link::grows(old(self)@.log, final(self)@.log),
            forall|o: Seq<NativeStep>|
                link::grows(final(self)@.log, o) ==> #[trigger] old(self)@.acquire_sized(lease, extent, o) == (
                    final(self)@,
                    result,
                ),
    {
        let size = GlSurfaceSize { width: extent.width, height: extent.height };
        let known = self.link.surface_extent();
        if known != Some(size) {
            match self.give(NativeCommand::ResizeSurface(size)) {
                Ok(()) => {},
                Err(error) => {
                    return Err(
                        AcquireError {
                            kind: AcquireErrorKind::Outdated,
                            detail: AcquireDetail::Resize(error),
                        },
                    );
                },
            }
        }
        let image = match self.link.acquire_surface_image() {
            Ok(GlSurfaceAcquire::Lease(image)) => image,
            Ok(GlSurfaceAcquire::Suspended) => {
                return Ok(None);
            },
            Err(error) => {
                return Err(
                    AcquireError {
                        kind: AcquireErrorKind::DeviceLost,
                        detail: AcquireDetail::Surface(error),
                    },
                );
            },
        };
        let serial: u64 = self.next_frame;
        if serial == u64::MAX {
            return Err(
                refused(AcquireErrorKind::NotReady, "native GL frame serial exhausted"),
            );
        }
        self.next_frame = serial + 1;
        let _ = self.leases.insert(lease.id, Some((serial, image)));
        Ok(
            Some(
                GlAcquiredFramebuffer { serial, extent, suboptimal: false, lease, framebuffer: 0 },
            ),
        )
    }

    /// Acquires a frame. There is no event of the platform to wait for, so a
    /// drawable without a size is reported as not ready, and nobody waits.
    pub fn acquire_or_register_waker(&mut self, lease: GlPresentationLease, waiter: u64) -> (result:
        Progress<Result<GlAcquiredFramebuffer, AcquireError>>)
        requires
            old(self).wf(),
        ensures
            final(self).wf(),
            link::grows(old(self)@.log, final(self)@.log),
            forall|o: Seq<NativeStep>|
                link::grows(final(self)@.log, o) ==> {
                    let (after, outcome) = #[trigger] old(self)@.acquire_frame(lease, o);
                    after == final(self)@ && result == Progress::Ready(
                        match outcome {
                            Ok(Some(frame)) => Ok(frame),
                            Ok(None) => Err(
                                acquire_text(
                                    AcquireErrorKind::NotReady,
                                    "native GL drawable is temporarily unavailable; no acquire wake source is installed",
                                ),
                            ),
                            Err(error) => Err(error),
                        },
                    )
                },
    {
        match self.try_acquire(lease) {
            Ok(Some(frame)) => Progress::Ready(Ok(frame)),
            Ok(None) => Progress::Ready(
                Err(
                    refused(
                        AcquireErrorKind::NotReady,
                        "native GL drawable is temporarily unavailable; no acquire wake source is installed",
                    ),
                ),
            ),
            Err(error) => Progress::Ready(Err(error)),
        }
    }

    /// Ends the acquired frame of a drawable.
    pub fn end_frame(
        &mut self,
        lease: GlPresentationLease,
        expected: Option<u64>,
        present: bool,
    ) -> (result: Result<(), RhiError>)
        requires
            old(self).wf(),
        ensures
            final(self).wf(),
            link::grows(old(self)@.log, final(self)@.log),
            forall|o: Seq<NativeStep>|
                link::grows(final(self)@.log, o) ==> #[trigger] old(self)@.end_frame(lease, expected, present, o) == (
                    final(self)@,
                    result,
                ),
    {
        let operation = "NativeProviderOwner::end_presentation_frame";
        match self.ready(operation) {
            Ok(()) => {},
            Err(error) => {
                return Err(error);
            },
        }
        let (serial, image) = match self.leases.get(lease.id) {
            None => {
                return Err(
                    RhiError::new(
                        RhiErrorKind::InvalidUsage,
                        "native GL presentation lease is no longer live",
                    ).at(operation),
                );
            },
            Some(None) => {
                return Err(
                    RhiError::new(
                        RhiErrorKind::InvalidUsage,
                        "native GL frame is not acquired",
                    ).at(operation),
                );
            },
            Some(Some(held)) => *held,
        };
        match expected {
            Some(expected) => {
                // A stale attachment must not use up the newer frame.
                if serial != expected {
                    return Err(
                        RhiError::new(
                            RhiErrorKind::InvalidUsage,
                            "native GL frame serial does not match the currently acquired frame",
                        ).at(operation),
                    );
                }
            },
            None => {},
        }
        let _ = self.leases.insert(lease.id, None);
        if present {
            match self.plain(NativeCommand::PresentSurface(image), operation) {
                Ok(()) => {},
                Err(error) => {
                    return Err(error);
                },
            }
            self.link.present()
        } else {
            self.plain(NativeCommand::ConsumeSurface { operation, lease: image }, operation)
        }
    }

    pub fn abandon(&mut self, lease: GlPresentationLease) -> (result: Result<(), RhiError>)
        requires
            old(self).wf(),
        ensures
            final(self).wf(),
            link::grows(old(self)@.log, final(self)@.log),
            forall|o: Seq<NativeStep>|
                link::grows(final(self)@.log, o) ==> #[trigger] old(self)@.end_frame(lease, None, false, o) == (
                    final(self)@,
                    result,
                ),
    {
        self.end_frame(lease, None, false)
    }

    pub fn release_presentation(&mut self, lease: GlPresentationLease)
        requires
            old(self).wf(),
        ensures
            final(self).wf(),
            link::grows(old(self)@.log, final(self)@.log),
            forall|o: Seq<NativeStep>|
                link::grows(final(self)@.log, o) ==> #[trigger] old(self)@.release_presentation(
                    lease,
                    o,
                ) == final(self)@,
    {
        let _ = self.end_frame(lease, None, false);
        let _ = self.leases.remove(lease.id);
    }

    pub fn present(&mut self, frame: GlAcquiredFramebuffer, receipt: u64)
        requires
            old(self).wf(),
        ensures
            final(self).wf(),
            link::grows(old(self)@.log, final(self)@.log),
            forall|o: Seq<NativeStep>|
                link::grows(final(self)@.log, o) ==> #[trigger] old(self)@.present(
                    frame,
                    receipt,
                    o,
                ) == final(self)@,
    {
        let state = match self.end_frame(frame.lease, Some(frame.serial), true) {
            Ok(()) => PresentState::Accepted,
            Err(error) => PresentState::Failed(error.detail),
        };
        let _ = self.presents.insert(receipt, state);
    }

    pub fn terminate_present(
        &mut self,
        frame: GlAcquiredFramebuffer,
        receipt: u64,
        state: PresentState,
    )
        requires
            old(self).wf(),
        ensures
            final(self).wf(),
            link::grows(old(self)@.log, final(self)@.log),
            forall|o: Seq<NativeStep>|
                link::grows(final(self)@.log, o) ==> #[trigger] old(self)@.terminate_present(
                    frame,
                    receipt,
                    state,
                    o,
                ) == final(self)@,
    {
        let _ = self.end_frame(frame.lease, Some(frame.serial), false);
        let _ = self.presents.insert(receipt, state);
    }

    /// How far a present has come. It is decided when it is asked for, so that
    /// nobody waits.
    pub fn present_state_or_register_waker(&self, receipt: u64, waiter: u64) -> (result: Result<
        PresentState,
        RhiError,
    >)
        requires
            self.wf(),
        ensures
            result == self@.present_state(receipt),
    {
        self.present_state(receipt)
    }

    pub fn present_state(&self, receipt: u64) -> (result: Result<PresentState, RhiError>)
        requires
            self.wf(),
        ensures
            result == self@.present_state(receipt),
    {
        match self.presents.get(receipt) {
            Some(state) => Ok(state.share()),
            None => Err(
                RhiError::new(
                    RhiErrorKind::InvalidUsage,
                    "native GL present receipt was never accepted",
                ),
            ),
        }
    }
}

} // verus!
