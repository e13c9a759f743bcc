//! Presenting through a configured default framebuffer.
//!
//! A lease names a configured canvas, window or default framebuffer. A frame
//! that is acquired from it is no texture view: a default framebuffer has no
//! texture identity and cannot be sampled, copied or stored to.

use vstd::prelude::*;
use crate::api::command::{GlAcquiredFramebuffer, GlPresentationLease};
use crate::api::error::{DeviceLossInfo, Message, RhiDetail, RhiError, RhiErrorKind};
use crate::api::identity::ObjectId;
use crate::api::resource::Extent2d;
use crate::exact::Share;
use crate::native::owner::PresentState;
use crate::native::present::{
    AcquireDetail, AcquireError, AcquireErrorKind, PresentationTargetCapabilities, Progress,
};
use crate::platform::device::{Device, GlDevice};
use crate::platform::driver;
use crate::platform::driver::{DriverLink, DriverStep, GlExecutionDriver};

verus! {

/// A driver of which a second handle can be made.
pub trait SharedDriver: GlExecutionDriver + Sized {
    /// Another handle on the same driver.
    fn handle(&self) -> Self;
}

/// The reason for a loss that an acquire met.
pub open spec fn acquire_cause(detail: AcquireDetail) -> RhiDetail {
    match detail {
        AcquireDetail::Text(text) => RhiDetail::Message(Message::Text(text)),
        AcquireDetail::Rhi(detail) => detail,
        AcquireDetail::Resize(error) => RhiDetail::Gl { operation: "resize", error },
        AcquireDetail::Surface(error) => RhiDetail::Gl { operation: "acquire", error },
    }
}

fn cause_of(detail: &AcquireDetail) -> (result: RhiDetail)
    ensures
        result == acquire_cause(*detail),
{
    match detail {
        AcquireDetail::Text(text) => RhiDetail::Message(Message::Text(*text)),
        AcquireDetail::Rhi(detail) => detail.share(),
        AcquireDetail::Resize(error) => RhiDetail::Gl {
            operation: "resize",
            error: error.share(),
        },
        AcquireDetail::Surface(error) => RhiDetail::Gl {
            operation: "acquire",
            error: error.share(),
        },
    }
}

/// What a configured presentation has done, by value.
#[verifier::ext_equal]
pub struct Configured {
    pub log: Seq<DriverStep>,
    /// The losses that the device has to be told of.
    pub reported: Seq<DeviceLossInfo>,
}

impl Configured {
    /// The answer to the next question, according to a record.
    pub open spec fn next(self, o: Seq<DriverStep>) -> DriverStep {
        o[self.log.len() as int]
    }

    /// The presentation after one more question.
    pub open spec fn asked(self, step: DriverStep) -> Configured {
        Configured { log: self.log.push(step), ..self }
    }

    /// The presentation after it saw a loss. Driver and device are told.
    pub open spec fn losing(self, info: DeviceLossInfo) -> Configured {
        Configured {
            log: self.log.push(DriverStep::DeviceLost { info }),
            reported: self.reported.push(info),
        }
    }

    /// The presentation after it saw this answer.
    pub open spec fn observed<T>(self, reply: Result<T, RhiError>) -> Configured {
        match reply {
            Err(error) => if error.kind == RhiErrorKind::DeviceLost {
                self.losing(DeviceLossInfo { cause: error.detail })
            } else {
                self
            },
            Ok(_) => self,
        }
    }

    /// The presentation after it saw this answer to an acquire.
    pub open spec fn observed_acquire<T>(self, reply: Result<T, AcquireError>) -> Configured {
        match reply {
            Err(error) => if error.kind == AcquireErrorKind::DeviceLost {
                self.losing(DeviceLossInfo { cause: acquire_cause(error.detail) })
            } else {
                self
            },
            Ok(_) => self,
        }
    }

    pub open spec fn capabilities(self, lease: GlPresentationLease, o: Seq<DriverStep>) -> (
        Configured,
        Result<PresentationTargetCapabilities, RhiError>,
    ) {
        let reply = self.next(o)->LeaseCapabilities_reply;
        (self.asked(DriverStep::LeaseCapabilities { lease, reply }).observed(reply), reply)
    }

    pub open spec fn reconfigure(
        self,
        lease: GlPresentationLease,
        waiter: u64,
        o: Seq<DriverStep>,
    ) -> (Configured, Progress<Result<(), RhiError>>) {
        let reply = self.next(o)->Reconfigure_reply;
        let seen = self.asked(DriverStep::Reconfigure { lease, waiter, reply });
        match reply {
            Progress::Pending => (seen, reply),
            Progress::Ready(result) => (seen.observed(result), reply),
        }
    }

    pub open spec fn try_acquire(self, lease: GlPresentationLease, o: Seq<DriverStep>) -> (
        Configured,
        Result<Option<GlAcquiredFramebuffer>, AcquireError>,
    ) {
        let reply = self.next(o)->TryAcquire_reply;
        (self.asked(DriverStep::TryAcquire { lease, reply }).observed_acquire(reply), reply)
    }

    pub open spec fn acquire_or_register_waker(
        self,
        lease: GlPresentationLease,
        waiter: u64,
        o: Seq<DriverStep>,
    ) -> (Configured, Progress<Result<GlAcquiredFramebuffer, AcquireError>>) {
        let reply = self.next(o)->AwaitFrame_reply;
        let seen = self.asked(DriverStep::AwaitFrame { lease, waiter, reply });
        match reply {
            Progress::Pending => (seen, reply),
            Progress::Ready(result) => (seen.observed_acquire(result), reply),
        }
    }

    pub open spec fn abandon(self, lease: GlPresentationLease, o: Seq<DriverStep>) -> (
        Configured,
        Result<(), RhiError>,
    ) {
        let reply = self.next(o)->Abandon_reply;
        (self.asked(DriverStep::Abandon { lease, reply }).observed(reply), reply)
    }
}

/// A presentation keeps every loss that it meets for the device, and nothing
/// else.
pub proof fn losses_are_reported<T>(
    presentation: Configured,
    reply: Result<T, RhiError>,
)
    ensures
        presentation.observed(reply).reported.len() > presentation.reported.len() <==> (reply is Err
            && reply->Err_0.kind == RhiErrorKind::DeviceLost),
        (reply is Err && reply->Err_0.kind == RhiErrorKind::DeviceLost) ==> presentation.observed(
            reply,
        ).reported.last() == (DeviceLossInfo { cause: reply->Err_0.detail }),
{
}

/// The first loss that a presentation meets ends the device that attends to it:
/// everybody who waits is woken, every later operation is refused with the
/// reason of the loss, and the driver is not told again.
pub proof fn the_first_loss_of_a_presentation_ends_the_device<T>(
    device: Device,
    presentation: Configured,
    reply: Result<T, RhiError>,
    operation: &'static str,
)
    requires
        device.lost is None,
        presentation.reported.len() == 0,
        reply is Err,
        reply->Err_0.kind == RhiErrorKind::DeviceLost,
    ensures
        ({
            let seen = presentation.observed(reply);
            let after = device.told(seen.reported);
            let info = DeviceLossInfo { cause: reply->Err_0.detail };
            &&& seen.log == presentation.log.push(DriverStep::DeviceLost { info })
            &&& after.lost == Some(info)
            &&& after.woken == device.woken + device.waiters
            &&& after.waiters.len() == 0
            &&& after.log == device.log
            &&& after.active(operation) == Err::<(), _>(
                RhiError {
                    kind: RhiErrorKind::DeviceLost,
                    detail: info.cause,
                    operation: Some(operation),
                },
            )
        }),
{
}

/// The first loss that an acquire meets ends the device too.
pub proof fn the_first_loss_of_an_acquire_ends_the_device<T>(
    device: Device,
    presentation: Configured,
    reply: Result<T, AcquireError>,
)
    requires
        device.lost is None,
        presentation.reported.len() == 0,
        reply is Err,
        reply->Err_0.kind == AcquireErrorKind::DeviceLost,
    ensures
        ({
            let seen = presentation.observed_acquire(reply);
            let after = device.told(seen.reported);
            let info = DeviceLossInfo { cause: acquire_cause(reply->Err_0.detail) };
            &&& seen.log == presentation.log.push(DriverStep::DeviceLost { info })
            &&& after.lost == Some(info)
            &&& after.woken == device.woken + device.waiters
            &&& after.waiters.len() == 0
            &&& after.log == device.log
        }),
{
}

/// A frame as the portable interface sees it, with what can end it.
pub struct AcquiredSurfaceFrame<D> {
    pub serial: u64,
    pub extent: Extent2d,
    pub suboptimal: bool,
    pub attachment: GlFrameAttachment<D>,
}

/// A frame and its driver.
pub struct GlFrameAttachment<D> {
    pub link: DriverLink<D>,
    pub frame: GlAcquiredFramebuffer,
}

impl<D: GlExecutionDriver> GlFrameAttachment<D> {
    /// Shows the frame.
    pub fn present(&mut self, receipt: u64)
        ensures
            final(self).frame == old(self).frame,
            final(self).link@ == old(self).link@.push(
                DriverStep::Present { frame: old(self).frame, receipt },
            ),
    {
        self.link.present(self.frame, receipt);
    }

    /// Ends the frame without showing it.
    pub fn terminate_present(&mut self, receipt: u64, state: PresentState)
        ensures
            final(self).frame == old(self).frame,
            final(self).link@ == old(self).link@.push(
                DriverStep::TerminatePresent { frame: old(self).frame, receipt, state },
            ),
    {
        self.link.terminate_present(self.frame, receipt, state);
    }
}

/// The portable view of an acquired frame.
pub fn surface_frame<D: GlExecutionDriver>(driver: D, frame: GlAcquiredFramebuffer) -> (result:
    AcquiredSurfaceFrame<D>)
    ensures
        result.serial == frame.serial,
        result.extent == frame.extent,
        result.suboptimal == frame.suboptimal,
        result.attachment.frame == frame,
        result.attachment.link@.len() == 0,
{
    AcquiredSurfaceFrame {
        serial: frame.serial,
        extent: frame.extent,
        suboptimal: frame.suboptimal,
        attachment: GlFrameAttachment { link: DriverLink::new(driver), frame },
    }
}

/// Whether this is the portable view of that frame.
pub open spec fn shown<D>(
    result: Result<AcquiredSurfaceFrame<D>, AcquireError>,
    outcome: Result<GlAcquiredFramebuffer, AcquireError>,
) -> bool {
    match outcome {
        Ok(frame) => result is Ok && result->Ok_0.attachment.frame == frame && result->Ok_0.serial
            == frame.serial && result->Ok_0.extent == frame.extent && result->Ok_0.suboptimal
            == frame.suboptimal,
        Err(error) => result == Err::<AcquiredSurfaceFrame<D>, _>(error),
    }
}

/// Whether this is the portable view of that frame, if there is one.
pub open spec fn shown_option<D>(
    result: Result<Option<AcquiredSurfaceFrame<D>>, AcquireError>,
    outcome: Result<Option<GlAcquiredFramebuffer>, AcquireError>,
) -> bool {
    match outcome {
        Ok(None) => result == Ok::<Option<AcquiredSurfaceFrame<D>>, AcquireError>(None),
        Ok(Some(frame)) => {
            &&& result is Ok
            &&& result->Ok_0 is Some
            &&& shown(Ok(result->Ok_0->0), Ok::<_, AcquireError>(frame))
        },
        Err(error) => result == Err::<Option<AcquiredSurfaceFrame<D>>, _>(error),
    }
}

/// A configured drawable. Its calls do not pass through the device any more,
/// so that it reports the losses it meets itself.
pub struct GlConfiguredPresentation<D> {
    pub link: DriverLink<D>,
    pub lease: GlPresentationLease,
    pub reported: Vec<DeviceLossInfo>,
}

impl<D> View for GlConfiguredPresentation<D> {
    type V = Configured;

    open spec fn view(&self) -> Configured {
        Configured { log: self.link@, reported: self.reported@ }
    }
}

/// A presentation on this lease.
pub fn configured<D: GlExecutionDriver>(driver: D, lease: GlPresentationLease) -> (result:
    GlConfiguredPresentation<D>)
    ensures
        result.lease == lease,
        result@ == (Configured { log: Seq::empty(), reported: Seq::empty() }),
{
    let result = GlConfiguredPresentation {
        link: DriverLink::new(driver),
        lease,
        reported: Vec::new(),
    };
    assert(result@ =~= Configured { log: Seq::empty(), reported: Seq::empty() });
    result
}

impl<D: SharedDriver, F> GlDevice<D, F> {
    /// Configures a target and gives the presentation on it.
    pub fn open_presentation(&mut self, target: ObjectId) -> (result: Result<
        GlConfiguredPresentation<D>,
        RhiError,
    >)
        requires
            old(self).wf(),
        ensures
            final(self).wf(),
            final(self).is_same_device(*old(self)),
            driver::grows(old(self)@.log, final(self)@.log),
            forall|o: Seq<DriverStep>|
                driver::grows(final(self)@.log, o) ==> {
                    let (after, lease) = #[trigger] old(self)@.configure_presentation(target, o);
                    &&& after == final(self)@
                    &&& match lease {
                        Ok(lease) => {
                            &&& result is Ok
                            &&& result->Ok_0.lease == lease
                            &&& result->Ok_0@ == Configured {
                                log: Seq::empty(),
                                reported: Seq::empty(),
                            }
                        },
                        Err(error) => result == Err::<GlConfiguredPresentation<D>, _>(error),
                    }
                },
    {
        match self.configure_presentation(target) {
            Ok(lease) => Ok(configured(self.link.driver().handle(), lease)),
            Err(error) => Err(error),
        }
    }
}

impl<D: GlExecutionDriver, F> GlDevice<D, F> {
    /// Notes the losses that a presentation met. The presentation forgets them.
    pub fn attend(&mut self, presentation: &mut GlConfiguredPresentation<D>)
        requires
            old(self).wf(),
        ensures
            final(self).wf(),
            final(self).is_same_device(*old(self)),
            final(self)@ == old(self)@.told(old(presentation)@.reported),
            final(presentation).lease == old(presentation).lease,
            final(presentation)@ == (Configured {
                reported: Seq::empty(),
                ..old(presentation)@
            }),
    {
        self.hear_losses(&presentation.reported);
        presentation.reported = Vec::new();
        assert(presentation.reported@ =~= Seq::<DeviceLossInfo>::empty());
    }
}

impl<D: GlExecutionDriver> GlConfiguredPresentation<D> {
    pub open spec fn wf(&self) -> bool {
        true
    }

    fn lose(&mut self, info: DeviceLossInfo)
        ensures
            final(self).lease == old(self).lease,
            final(self)@ == old(self)@.losing(info),
    {
        self.link.device_lost(&info);
        self.reported.push(info);
    }

    /// Watches an answer for a loss.
    pub fn observe<T>(&mut self, reply: &Result<T, RhiError>)
        ensures
            final(self).lease == old(self).lease,
            final(self)@ == old(self)@.observed(*reply),
    {
        match reply {
            Err(error) => {
                if error.kind() == RhiErrorKind::DeviceLost {
                    self.lose(DeviceLossInfo::because(error.detail.share()));
                }
            },
            Ok(_) => {},
        }
    }

    /// Watches the answer to an acquire for a loss.
    pub fn observe_acquire<T>(&mut self, reply: &Result<T, AcquireError>)
        ensures
            final(self).lease == old(self).lease,
            final(self)@ == old(self)@.observed_acquire(*reply),
    {
        match reply {
            Err(error) => {
                if error.kind == AcquireErrorKind::DeviceLost {
                    self.lose(DeviceLossInfo::because(cause_of(&error.detail)));
                }
            },
            Ok(_) => {},
        }
    }

    /// What the drawable can show.
    pub fn capabilities(&mut self) -> (result: Result<PresentationTargetCapabilities, RhiError>)
        requires
            old(self).wf(),
        ensures
            final(self).wf(),
            final(self).lease == old(self).lease,
            driver::grows(old(self)@.log, final(self)@.log),
            forall|o: Seq<DriverStep>|
                driver::grows(final(self)@.log, o) ==> #[trigger] old(self)@.capabilities(old(self).lease, o) == (
                    final(self)@,
                    result,
                ),
    {
        let reply = self.link.lease_capabilities(self.lease);
        self.observe(&reply);
        reply
    }

    /// Configures the drawable again.
    pub fn reconfigure_or_register_waker(&mut self, waiter: u64) -> (result: Progress<
        Result<(), RhiError>,
    >)
        requires
            old(self).wf(),
        ensures
            final(self).wf(),
            final(self).lease == old(self).lease,
            driver::grows(old(self)@.log, final(self)@.log),
            forall|o: Seq<DriverStep>|
                driver::grows(final(self)@.log, o) ==> #[trigger] old(self)@.reconfigure(old(self).lease, waiter, o) == (
                    final(self)@,
                    result,
                ),
    {
        match self.link.reconfigure_or_register_waker(self.lease, waiter) {
            Progress::Pending => Progress::Pending,
            Progress::Ready(reply) => {
                self.observe(&reply);
                Progress::Ready(reply)
            },
        }
    }

    /// Drops the frame that is held.
    pub fn abandon(&mut self) -> (result: Result<(), RhiError>)
        requires
            old(self).wf(),
        ensures
            final(self).wf(),
            final(self).lease == old(self).lease,
            driver::grows(old(self)@.log, final(self)@.log),
            forall|o: Seq<DriverStep>|
                driver::grows(final(self)@.log, o) ==> #[trigger] old(self)@.abandon(old(self).lease, o) == (
                    final(self)@,
                    result,
                ),
    {
        let reply = self.link.abandon(self.lease);
        self.observe(&reply);
        reply
    }

    /// Drops the frame that is held, whatever comes of it.
    pub fn abandon_no_throw(&mut self)
        ensures
            final(self).lease == old(self).lease,
            driver::grows(old(self)@.log, final(self)@.log),
            final(self)@.log.len() == old(self)@.log.len() + 1,
            final(self)@.log.last() is Abandon,
            final(self)@.log.last()->Abandon_lease == old(self).lease,
            final(self)@.reported == old(self)@.reported,
    {
        let _ = self.link.abandon(self.lease);
    }

    /// Gives the drawable up.
    pub fn release(&mut self)
        ensures
            final(self).lease == old(self).lease,
            final(self)@ == old(self)@.asked(DriverStep::Release { lease: old(self).lease }),
    {
        self.link.release_presentation(self.lease);
    }
}

impl<D: SharedDriver> GlConfiguredPresentation<D> {
    /// A frame, if there is one.
    pub fn try_acquire(&mut self) -> (result: Result<Option<AcquiredSurfaceFrame<D>>, AcquireError>)
        ensures
            final(self).lease == old(self).lease,
            driver::grows(old(self)@.log, final(self)@.log),
            forall|o: Seq<DriverStep>|
                driver::grows(final(self)@.log, o) ==> {
                    let (after, outcome) = #[trigger] old(self)@.try_acquire(old(self).lease, o);
                    &&& after == final(self)@
                    &&& shown_option(result, outcome)
                },
    {
        let reply = self.link.try_acquire(self.lease);
        self.observe_acquire(&reply);
        match reply {
            Ok(Some(frame)) => Ok(Some(surface_frame(self.link.driver().handle(), frame))),
            Ok(None) => Ok(None),
            Err(error) => Err(error),
        }
    }

    /// A frame, or the promise that a waiter is woken.
    pub fn acquire_or_register_waker(&mut self, waiter: u64) -> (result: Progress<
        Result<AcquiredSurfaceFrame<D>, AcquireError>,
    >)
        ensures
            final(self).lease == old(self).lease,
            driver::grows(old(self)@.log, final(self)@.log),
            forall|o: Seq<DriverStep>|
                driver::grows(final(self)@.log, o) ==> {
                    let (after, outcome) = #[trigger] old(self)@.acquire_or_register_waker(
                        old(self).lease,
                        waiter,
                        o,
                    );
                    &&& after == final(self)@
                    &&& match outcome {
                        Progress::Pending => result is Pending,
                        Progress::Ready(frame) => result is Ready && shown(result->Ready_0, frame),
                    }
                },
    {
        match self.link.acquire_or_register_waker(self.lease, waiter) {
            Progress::Pending => Progress::Pending,
            Progress::Ready(reply) => {
                self.observe_acquire(&reply);
                match reply {
                    Ok(frame) => Progress::Ready(
                        Ok(surface_frame(self.link.driver().handle(), frame)),
                    ),
                    Err(error) => Progress::Ready(Err(error)),
                }
            },
        }
    }
}

} // verus!
