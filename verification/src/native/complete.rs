//! How far submissions have come, and what happens when the device is lost.

use vstd::prelude::*;
use std::sync::Arc;
use crate::api::error::{CompletionFailure, CompletionState, DeviceLossInfo, RhiErrorKind};
use crate::api::gl::GlFenceStatus;
use crate::api::resource::ReadbackStatus;
use crate::exact::Share;
use crate::native::execute;
use crate::native::link;
use crate::native::link::{
    CommandModel, NativeCommand, NativeObject, NativePlatformContext, NativeProvider, NativeStep,
};
use crate::native::owner;
use crate::native::owner::{
    map_gl, AcquiredImage, CompletionModel, NativeCompletion, NativeOwnedProvider, Notice, Owner,
    PendingReadback, PresentState,
};
use crate::table::Table;

verus! {

/// What a caller sees of a submission.
pub open spec fn state_of(completion: CompletionModel) -> CompletionState {
    match completion {
        CompletionModel::Pending { .. } => CompletionState::Pending,
        CompletionModel::Complete => CompletionState::Complete,
        CompletionModel::DeviceLost(info) => CompletionState::DeviceLost(info),
        CompletionModel::Failed(failure) => CompletionState::Failed(failure),
    }
}

/// The bytes of readbacks are there.
pub open spec fn publishes(readbacks: Seq<PendingReadback>) -> Seq<Notice> {
    readbacks.map_values(
        |readback: PendingReadback|
            Notice::Publish {
                ticket: readback.ticket,
                bytes: readback.bytes,
                layout: readback.layout,
            },
    )
}

/// Readbacks ended without their bytes.
pub open spec fn given_up(readbacks: Seq<PendingReadback>, status: ReadbackStatus) -> Seq<Notice> {
    readbacks.map_values(
        |readback: PendingReadback| Notice::Status { ticket: readback.ticket, status },
    )
}

/// Waiters are woken.
pub open spec fn wakes(waiters: Seq<u64>) -> Seq<Notice> {
    waiters.map_values(|waiter: u64| Notice::Wake { waiter })
}

/// The notices of all pending submissions from a position on when the device
/// is lost.
pub open spec fn loss_notices(completions: Seq<CompletionModel>, at: int) -> Seq<Notice>
    decreases completions.len() - at,
{
    if at >= completions.len() {
        Seq::empty()
    } else {
        let rest = loss_notices(completions, at + 1);
        match completions[at] {
            CompletionModel::Pending { readbacks, waiters, .. } => given_up(
                readbacks,
                ReadbackStatus::DeviceLost,
            ) + wakes(waiters) + rest,
            _ => rest,
        }
    }
}

/// A submission after the device was lost. A final state stays as it is.
pub open spec fn completion_lost(
    completion: CompletionModel,
    info: DeviceLossInfo,
) -> CompletionModel {
    match completion {
        CompletionModel::Pending { .. } => CompletionModel::DeviceLost(info),
        _ => completion,
    }
}

/// A presented frame after the device was lost. An answer stays as it is.
pub open spec fn present_lost(state: PresentState, info: DeviceLossInfo) -> PresentState {
    match state {
        PresentState::Pending => PresentState::DeviceLost(info),
        _ => state,
    }
}

impl Owner {
    /// The submission with this serial.
    pub open spec fn accepted(self, serial: u64) -> bool {
        1 <= serial <= self.completions.len()
    }

    /// The owner with another state of a submission and some notices.
    pub open spec fn completing(
        self,
        serial: u64,
        completion: CompletionModel,
        notices: Seq<Notice>,
    ) -> Owner {
        Owner {
            completions: self.completions.update(serial - 1, completion),
            notices: self.notices + notices,
            ..self
        }
    }

    /// Asks the fence of a pending submission, and tells what came of it.
    pub open spec fn completion_state(self, serial: u64, o: Seq<NativeStep>) -> (
        Owner,
        CompletionState,
    ) {
        if !self.accepted(serial) {
            (self, CompletionState::Failed(CompletionFailure::NeverAccepted { serial }))
        } else {
            match self.completions[serial - 1] {
                CompletionModel::Pending { fence, readbacks, waiters } => {
                    let reply = self.next(o)->PollFence_reply;
                    let polled = self.asked(NativeStep::PollFence { fence, reply });
                    match reply {
                        Ok(GlFenceStatus::Complete) => {
                            let (gone, _) = polled.completing(
                                serial,
                                CompletionModel::Complete,
                                publishes(readbacks) + wakes(waiters),
                            ).command(
                                CommandModel::Plain(
                                    NativeCommand::Destroy(NativeObject::Fence(fence)),
                                ),
                                o,
                            );
                            (gone, CompletionState::Complete)
                        },
                        Ok(GlFenceStatus::Pending) => (polled, CompletionState::Pending),
                        Ok(GlFenceStatus::Unknown) => (polled, CompletionState::Pending),
                        Ok(GlFenceStatus::Failed) => (
                            polled.completing(
                                serial,
                                CompletionModel::Failed(CompletionFailure::Fence),
                                given_up(readbacks, ReadbackStatus::Failed) + wakes(waiters),
                            ),
                            CompletionState::Failed(CompletionFailure::Fence),
                        ),
                        Err(error) => {
                            let error = owner::mapped(error, "poll native GL completion");
                            let end = execute::ended_by(error);
                            (
                                polled.completing(
                                    serial,
                                    end,
                                    given_up(
                                        readbacks,
                                        execute::if_lost(error.kind == RhiErrorKind::DeviceLost),
                                    ) + wakes(waiters),
                                ),
                                state_of(end),
                            )
                        },
                    }
                },
                completion => (self, state_of(completion)),
            }
        }
    }

    /// Makes the context current if it can be, and asks for a submission.
    pub open spec fn completion(self, serial: u64, o: Seq<NativeStep>) -> (Owner, CompletionState) {
        let (current, _) = self.ready("NativeProviderOwner::completion", o);
        current.completion_state(serial, o)
    }

    /// The owner with a waiter for a submission. Nobody waits twice.
    pub open spec fn awaited(self, serial: u64, waiter: u64) -> Owner {
        match self.completions[serial - 1] {
            CompletionModel::Pending { fence, readbacks, waiters } => if waiters.contains(waiter) {
                self
            } else {
                Owner {
                    completions: self.completions.update(
                        serial - 1,
                        CompletionModel::Pending {
                            fence,
                            readbacks,
                            waiters: waiters.push(waiter),
                        },
                    ),
                    ..self
                }
            },
            _ => self,
        }
    }

    /// Asks for a submission, and waits for it if it is pending.
    pub open spec fn completion_or_register_waker(
        self,
        serial: u64,
        waiter: u64,
        o: Seq<NativeStep>,
    ) -> (Owner, CompletionState) {
        let (current, _) = self.ready("NativeProviderOwner::completion_or_register_waker", o);
        let (asked, state) = current.completion_state(serial, o);
        if state is Pending {
            (asked.awaited(serial, waiter), state)
        } else {
            (asked, state)
        }
    }

    /// Asks for the submissions from a position on until one is pending.
    pub open spec fn any_pending(self, at: nat, count: nat, o: Seq<NativeStep>) -> (Owner, bool)
        decreases count - at,
    {
        if at >= count {
            (self, false)
        } else {
            let (asked, state) = self.completion_state((at + 1) as u64, o);
            if state is Pending {
                (asked, true)
            } else {
                asked.any_pending(at + 1, count, o)
            }
        }
    }

    /// Everything that waits gets its answer: the device is lost. Answers that
    /// were given stay. No frame is acquired any longer.
    pub open spec fn device_lost(self, info: DeviceLossInfo, o: Seq<NativeStep>) -> Owner {
        let lost = Owner {
            completions: self.completions.map_values(
                |completion: CompletionModel| completion_lost(completion, info),
            ),
            notices: self.notices + loss_notices(self.completions, 0),
            presents: Map::new(
                |key: u64| self.presents.contains_key(key),
                |key: u64| present_lost(self.presents[key], info),
            ),
            leases: Map::new(|key: u64| self.leases.contains_key(key), |key: u64| None),
            ..self
        };
        let (told, _) = lost.command(CommandModel::Plain(NativeCommand::ContextLost), o);
        told
    }
}

/// A submission that has come to an end stays there: asking again asks no
/// fence, sends no notice and gives the same answer.
pub proof fn final_completions_are_stable(owner: Owner, serial: u64, o: Seq<NativeStep>)
    requires
        owner.accepted(serial),
        !(owner.completions[serial - 1] is Pending),
    ensures
        owner.completion_state(serial, o) == (owner, state_of(owner.completions[serial - 1])),
        forall|info: DeviceLossInfo|
            #[trigger] completion_lost(owner.completions[serial - 1], info)
                == owner.completions[serial - 1],
{
}

/// After a loss nothing is pending and no frame is acquired, and a completed
/// submission stays completed.
pub proof fn a_loss_ends_all_waiting(owner: Owner, info: DeviceLossInfo, o: Seq<NativeStep>)
    ensures
        forall|i: int|
            0 <= i < owner.completions.len() ==> !((#[trigger] owner.device_lost(
                info,
                o,
            ).completions[i]) is Pending) && (owner.completions[i] is Complete
                ==> owner.device_lost(info, o).completions[i] is Complete),
        forall|receipt: u64| #[trigger]
            owner.device_lost(info, o).presents.contains_key(receipt) ==> !(owner.device_lost(
                info,
                o,
            ).presents[receipt] is Pending),
        forall|lease: u64| #[trigger]
            owner.device_lost(info, o).leases.contains_key(lease) ==> owner.device_lost(
                info,
                o,
            ).leases[lease] is None,
{
}

fn push_publishes(notices: &mut Vec<Notice>, readbacks: &Vec<PendingReadback>)
    ensures
        final(notices)@ == old(notices)@ + publishes(readbacks@),
{
    let mut at: usize = 0;
    assert(notices@ =~= old(notices)@ + publishes(readbacks@).take(0));
    while at < readbacks.len()
        invariant
            at <= readbacks@.len(),
            notices@ == old(notices)@ + publishes(readbacks@).take(at as int),
        decreases readbacks@.len() - at,
    {
        let readback = &readbacks[at];
        notices.push(
            Notice::Publish {
                ticket: readback.ticket,
                bytes: Arc::clone(&readback.bytes),
                layout: readback.layout,
            },
        );
        at += 1;
        assert(notices@ =~= old(notices)@ + publishes(readbacks@).take(at as int));
    }
    assert(publishes(readbacks@).take(at as int) =~= publishes(readbacks@));
}

fn push_given_up(
    notices: &mut Vec<Notice>,
    readbacks: &Vec<PendingReadback>,
    status: ReadbackStatus,
)
    ensures
        final(notices)@ == old(notices)@ + given_up(readbacks@, status),
{
    let mut at: usize = 0;
    assert(notices@ =~= old(notices)@ + given_up(readbacks@, status).take(0));
    while at < readbacks.len()
        invariant
            at <= readbacks@.len(),
            notices@ == old(notices)@ + given_up(readbacks@, status).take(at as int),
        decreases readbacks@.len() - at,
    {
        notices.push(Notice::Status { ticket: readbacks[at].ticket, status });
        at += 1;
        assert(notices@ =~= old(notices)@ + given_up(readbacks@, status).take(at as int));
    }
    assert(given_up(readbacks@, status).take(at as int) =~= given_up(readbacks@, status));
}

fn push_wakes(notices: &mut Vec<Notice>, waiters: &Vec<u64>)
    ensures
        final(notices)@ == old(notices)@ + wakes(waiters@),
{
    let mut at: usize = 0;
    assert(notices@ =~= old(notices)@ + wakes(waiters@).take(0));
    while at < waiters.len()
        invariant
            at <= waiters@.len(),
            notices@ == old(notices)@ + wakes(waiters@).take(at as int),
        decreases waiters@.len() - at,
    {
        notices.push(Notice::Wake { waiter: waiters[at] });
        at += 1;
        assert(notices@ =~= old(notices)@ + wakes(waiters@).take(at as int));
    }
    assert(wakes(waiters@).take(at as int) =~= wakes(waiters@));
}

fn shown(completion: &NativeCompletion) -> (result: CompletionState)
    ensures
        result == state_of(completion@),
{
    match completion {
        NativeCompletion::Pending { .. } => CompletionState::Pending,
        NativeCompletion::Complete => CompletionState::Complete,
        NativeCompletion::DeviceLost(info) => CompletionState::DeviceLost(info.share()),
        NativeCompletion::Failed(failure) => CompletionState::Failed(failure.share()),
    }
}

fn is_waiting(waiters: &Vec<u64>, waiter: u64) -> (result: bool)
    ensures
        result == waiters@.contains(waiter),
{
    let mut at: usize = 0;
    while at < waiters.len()
        invariant
            at <= waiters@.len(),
            forall|i: int| 0 <= i < at ==> waiters@[i] != waiter,
        decreases waiters@.len() - at,
    {
        if waiters[at] == waiter {
            return true;
        }
        at += 1;
    }
    false
}

fn with_waiter(waiters: &Vec<u64>, waiter: u64) -> (result: Vec<u64>)
    ensures
        result@ == waiters@.push(waiter),
{
    let mut result: Vec<u64> = Vec::new();
    let mut at: usize = 0;
    while at < waiters.len()
        invariant
            at <= waiters@.len(),
            result@ == waiters@.take(at as int),
        decreases waiters@.len() - at,
    {
        result.push(waiters[at]);
        at += 1;
        assert(result@ =~= waiters@.take(at as int));
    }
    result.push(waiter);
    assert(result@ =~= waiters@.push(waiter));
    result
}

fn copied(readbacks: &Vec<PendingReadback>) -> (result: Vec<PendingReadback>)
    ensures
        result@ == readbacks@,
{
    let mut result: Vec<PendingReadback> = Vec::new();
    let mut at: usize = 0;
    while at < readbacks.len()
        invariant
            at <= readbacks@.len(),
            result@ == readbacks@.take(at as int),
        decreases readbacks@.len() - at,
    {
        let readback = &readbacks[at];
        result.push(
            PendingReadback {
                ticket: readback.ticket,
                bytes: Arc::clone(&readback.bytes),
                layout: readback.layout,
            },
        );
        at += 1;
        assert(result@ =~= readbacks@.take(at as int));
    }
    assert(result@ =~= readbacks@);
    result
}

impl<C: NativePlatformContext, P: NativeProvider> NativeOwnedProvider<C, P> {
    fn complete(&mut self, at: usize, completion: NativeCompletion)
        requires
            old(self).wf(),
            at < old(self).completions@.len(),
        ensures
            final(self).wf(),
            final(self).completions@.len() == old(self).completions@.len(),
            final(self)@ == (Owner {
                completions: old(self)@.completions.update(at as int, completion@),
                ..old(self)@
            }),
    {
        let ghost model = completion@;
        let ghost before = self.completions@;
        self.completions.set(at, completion);
        assert(owner::seen_completions(self.completions@) =~= owner::seen_completions(
            before,
        ).update(at as int, model));
    }

    /// Asks for a submission. Its fence can only be asked on this thread.
    pub fn completion_state(&mut self, serial: u64) -> (result: CompletionState)
        requires
            old(self).wf(),
        ensures
            final(self).wf(),
            link::grows(old(self)@.log, final(self)@.log),
            forall|o: Seq<NativeStep>|
                link::grows(final(self)@.log, o) ==> #[trigger] old(self)@.completion_state(serial, o) == (
                    final(self)@,
                    result,
                ),
    {
        let count: u64 = self.completions.len() as u64;
        if serial == 0 || serial > count {
            return CompletionState::Failed(CompletionFailure::NeverAccepted { serial });
        }
        let at: usize = (serial - 1) as usize;
        assert(self@.completions[serial - 1] == self.completions@[at as int]@);
        match &self.completions[at] {
            NativeCompletion::Pending { fence, readbacks, waiters } => {
                let fence = *fence;
                match self.link.poll_fence(fence) {
                    Ok(GlFenceStatus::Complete) => {
                        push_publishes(&mut self.notices, readbacks);
                        push_wakes(&mut self.notices, waiters);
                        assert(self.notices@ =~= old(self).notices@ + (publishes(readbacks@)
                            + wakes(waiters@)));
                        self.complete(at, NativeCompletion::Complete);
                        let _ = self.give(NativeCommand::Destroy(NativeObject::Fence(fence)));
                        CompletionState::Complete
                    },
                    Ok(GlFenceStatus::Pending) => CompletionState::Pending,
                    Ok(GlFenceStatus::Unknown) => CompletionState::Pending,
                    Ok(GlFenceStatus::Failed) => {
                        push_given_up(&mut self.notices, readbacks, ReadbackStatus::Failed);
                        push_wakes(&mut self.notices, waiters);
                        assert(self.notices@ =~= old(self).notices@ + (given_up(
                            readbacks@,
                            ReadbackStatus::Failed,
                        ) + wakes(waiters@)));
                        self.complete(at, NativeCompletion::Failed(CompletionFailure::Fence));
                        CompletionState::Failed(CompletionFailure::Fence)
                    },
                    Err(error) => {
                        let error = map_gl(error, "poll native GL completion");
                        let lost = error.kind() == RhiErrorKind::DeviceLost;
                        let status = if lost {
                            ReadbackStatus::DeviceLost
                        } else {
                            ReadbackStatus::Failed
                        };
                        push_given_up(&mut self.notices, readbacks, status);
                        push_wakes(&mut self.notices, waiters);
                        assert(self.notices@ =~= old(self).notices@ + (given_up(readbacks@, status)
                            + wakes(waiters@)));
                        let ghost end = execute::ended_by(error);
                        let completion = if lost {
                            NativeCompletion::DeviceLost(DeviceLossInfo::because(error.detail))
                        } else {
                            NativeCompletion::Failed(CompletionFailure::Cause(error.detail))
                        };
                        assert(completion@ == end);
                        let state = shown(&completion);
                        self.complete(at, completion);
                        state
                    },
                }
            },
            completion => shown(completion),
        }
    }

    pub fn completion(&mut self, serial: u64) -> (result: CompletionState)
        requires
            old(self).wf(),
        ensures
            final(self).wf(),
            link::grows(old(self)@.log, final(self)@.log),
            forall|o: Seq<NativeStep>|
                link::grows(final(self)@.log, o) ==> #[trigger] old(self)@.completion(serial, o) == (
                    final(self)@,
                    result,
                ),
    {
        let _ = self.ready("NativeProviderOwner::completion");
        self.completion_state(serial)
    }

    /// Asks for a submission, and notes who waits for it if it is pending.
    pub fn completion_or_register_waker(&mut self, serial: u64, waiter: u64) -> (result:
        CompletionState)
        requires
            old(self).wf(),
        ensures
            final(self).wf(),
            link::grows(old(self)@.log, final(self)@.log),
            forall|o: Seq<NativeStep>|
                link::grows(final(self)@.log, o) ==> #[trigger] old(self)@.completion_or_register_waker(serial, waiter, o) == (
                    final(self)@,
                    result,
                ),
    {
        let _ = self.ready("NativeProviderOwner::completion_or_register_waker");
        let state = self.completion_state(serial);
        match &state {
            CompletionState::Pending => {},
            _ => {
                return state;
            },
        }
        let count: u64 = self.completions.len() as u64;
        if serial == 0 || serial > count {
            return state;
        }
        let at: usize = (serial - 1) as usize;
        assert(self@.completions[serial - 1] == self.completions@[at as int]@);
        let completion = match &self.completions[at] {
            NativeCompletion::Pending { fence, readbacks, waiters } => {
                if is_waiting(waiters, waiter) {
                    return state;
                }
                NativeCompletion::Pending {
                    fence: *fence,
                    readbacks: copied(readbacks),
                    waiters: with_waiter(waiters, waiter),
                }
            },
            _ => {
                return state;
            },
        };
        self.complete(at, completion);
        state
    }

    /// Asks for the submissions in turn until one is pending.
    pub fn any_pending(&mut self) -> (result: bool)
        requires
            old(self).wf(),
        ensures
            final(self).wf(),
            link::grows(old(self)@.log, final(self)@.log),
            forall|o: Seq<NativeStep>|
                link::grows(final(self)@.log, o) ==> #[trigger] old(self)@.any_pending(0, old(self)@.completions.len(), o) == (
                    final(self)@,
                    result,
                ),
    {
        let count: usize = self.completions.len();
        let mut at: usize = 0;
        while at < count
            invariant
                at <= count,
                count == old(self)@.completions.len(),
                self.wf(),
                link::grows(old(self)@.log, self@.log),
                forall|o: Seq<NativeStep>|
                    link::grows(self@.log, o) ==> #[trigger] old(self)@.any_pending(
                        0,
                        count as nat,
                        o,
                    ) == self@.any_pending(at as nat, count as nat, o),
            decreases count - at,
        {
            let serial: u64 = at as u64 + 1;
            let state = self.completion_state(serial);
            match state {
                CompletionState::Pending => {
                    return true;
                },
                _ => {},
            }
            at += 1;
        }
        false
    }

    fn lose_completions(&mut self, info: &DeviceLossInfo)
        requires
            old(self).wf(),
        ensures
            final(self).wf(),
            final(self)@ == (Owner {
                completions: old(self)@.completions.map_values(
                    |completion: CompletionModel| completion_lost(completion, *info),
                ),
                notices: old(self)@.notices + loss_notices(old(self)@.completions, 0),
                ..old(self)@
            }),
    {
        let ghost start = self@;
        let ghost goal = start.completions.map_values(
            |completion: CompletionModel| completion_lost(completion, *info),
        );
        let count: usize = self.completions.len();
        let mut at: usize = 0;
        assert(self.notices@ + loss_notices(start.completions, 0) =~= start.notices + loss_notices(
            start.completions,
            0,
        ));
        while at < count
            invariant
                at <= count,
                count == self.completions@.len(),
                count == start.completions.len(),
                self.wf(),
                goal == start.completions.map_values(
                    |completion: CompletionModel| completion_lost(completion, *info),
                ),
                self@ == (Owner {
                    completions: self@.completions,
                    notices: self@.notices,
                    ..start
                }),
                forall|i: int| 0 <= i < at ==> #[trigger] self@.completions[i] == goal[i],
                forall|i: int|
                    at <= i < count ==> #[trigger] self@.completions[i] == start.completions[i],
                self@.notices + loss_notices(start.completions, at as int) == start.notices
                    + loss_notices(start.completions, 0),
            decreases count - at,
        {
            let ghost before = self@;
            assert(self@.completions[at as int] == start.completions[at as int]);
            assert(self@.completions[at as int] == self.completions@[at as int]@);
            let pending = match &self.completions[at] {
                NativeCompletion::Pending { fence: _, readbacks, waiters } => {
                    push_given_up(&mut self.notices, readbacks, ReadbackStatus::DeviceLost);
                    push_wakes(&mut self.notices, waiters);
                    proof {
                        let rest = loss_notices(start.completions, at + 1);
                        assert(self.notices@ + rest =~= before.notices + (given_up(
                            readbacks@,
                            ReadbackStatus::DeviceLost,
                        ) + wakes(waiters@) + rest));
                    }
                    true
                },
                _ => false,
            };
            if pending {
                self.complete(at, NativeCompletion::DeviceLost(info.share()));
            }
            at += 1;
        }
        assert(loss_notices(start.completions, at as int) =~= Seq::<Notice>::empty());
        assert(self@.notices =~= start.notices + loss_notices(start.completions, 0));
        assert(self@.completions =~= goal);
    }

    /// Gives everything that waits its answer: the device is lost.
    pub fn device_lost(&mut self, info: &DeviceLossInfo)
        requires
            old(self).wf(),
        ensures
            final(self).wf(),
            link::grows(old(self)@.log, final(self)@.log),
            forall|o: Seq<NativeStep>|
                link::grows(final(self)@.log, o) ==> #[trigger] old(self)@.device_lost(*info, o)
                    == final(self)@,
    {
        self.lose_completions(info);
        lose_presents(&mut self.presents, info);
        lose_leases(&mut self.leases);
        let _ = self.give(NativeCommand::ContextLost);
    }
}

fn lose_presents(presents: &mut Table<PresentState>, info: &DeviceLossInfo)
    requires
        old(presents).wf(),
    ensures
        final(presents).wf(),
        final(presents)@ == Map::new(
            |key: u64| old(presents)@.contains_key(key),
            |key: u64| present_lost(old(presents)@[key], *info),
        ),
{
    let keys = presents.keys();
    let mut at: usize = 0;
    while at < keys.len()
        invariant
            at <= keys@.len(),
            presents.wf(),
            forall|key: u64| #[trigger] old(presents)@.contains_key(key) == keys@.contains(key),
            forall|i: int, j: int|
                0 <= i < j < keys@.len() ==> (#[trigger] keys@[i]) < (#[trigger] keys@[j]),
            presents@.dom() =~= old(presents)@.dom(),
            forall|i: int|
                0 <= i < at ==> presents@[#[trigger] keys@[i]] == present_lost(
                    old(presents)@[keys@[i]],
                    *info,
                ),
            forall|i: int|
                at <= i < keys@.len() ==> presents@[#[trigger] keys@[i]] == old(
                    presents,
                )@[keys@[i]],
        decreases keys@.len() - at,
    {
        let key: u64 = keys[at];
        assert(keys@.contains(key));
        let pending = match presents.get(key) {
            Some(PresentState::Pending) => true,
            _ => false,
        };
        if pending {
            let _ = presents.insert(key, PresentState::DeviceLost(info.share()));
        }
        at += 1;
    }
    proof {
        let goal = Map::new(
            |key: u64| old(presents)@.contains_key(key),
            |key: u64| present_lost(old(presents)@[key], *info),
        );
        assert forall|key: u64| #[trigger] goal.dom().contains(key) implies presents@[key]
            == goal[key] by {
            assert(keys@.contains(key));
            let i = choose|i: int| 0 <= i < keys@.len() && keys@[i] == key;
            assert(presents@[keys@[i]] == present_lost(old(presents)@[keys@[i]], *info));
        }
        assert(presents@ =~= goal);
    }
}

fn lose_leases(leases: &mut Table<AcquiredImage>)
    requires
        old(leases).wf(),
    ensures
        final(leases).wf(),
        final(leases)@ == Map::<u64, AcquiredImage>::new(
            |key: u64| old(leases)@.contains_key(key),
            |key: u64| None,
        ),
{
    let keys = leases.keys();
    let mut at: usize = 0;
    while at < keys.len()
        invariant
            at <= keys@.len(),
            leases.wf(),
            forall|key: u64| #[trigger] old(leases)@.contains_key(key) == keys@.contains(key),
            leases@.dom() =~= old(leases)@.dom(),
            forall|i: int| 0 <= i < at ==> leases@[#[trigger] keys@[i]] is None,
        decreases keys@.len() - at,
    {
        let key: u64 = keys[at];
        assert(keys@.contains(key));
        let _ = leases.insert(key, None);
        at += 1;
    }
    proof {
        let goal = Map::<u64, AcquiredImage>::new(
            |key: u64| old(leases)@.contains_key(key),
            |key: u64| None,
        );
        assert forall|key: u64| #[trigger] goal.dom().contains(key) implies leases@[key]
            == goal[key] by {
            assert(keys@.contains(key));
            let i = choose|i: int| 0 <= i < keys@.len() && keys@[i] == key;
            assert(leases@[keys@[i]] is None);
        }
        assert(leases@ =~= goal);
    }
}

} // verus!
