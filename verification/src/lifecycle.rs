//! The lifecycle of a running actor as a state machine.
//!
//! The runtime performs what an [`Action`] asks (calling hooks, receiving from
//! the mailbox, spawning or joining concurrent reads, notifying links) and
//! hands back what happened as a [`LifecycleEvent`]; [`Lifecycle::step`]
//! decides what comes next.
use crate::err::PanicErr;
use crate::reason::ActorStopReason;
use vstd::prelude::*;

verus! {

/// What the mailbox handed to the actor, with the message itself kept by the runtime.
pub enum Received {
    /// A message; `read_only` tells whether it only reads the actor's state.
    Message { read_only: bool },
    /// A request to stop once the messages before it are processed.
    Stop,
    /// A linked actor died.
    LinkDied { id: u64, reason: ActorStopReason },
    /// Every sender is gone: the mailbox is closed.
    Closed,
}

/// How a concurrently running read-only message ended.
pub enum ReadOutcome {
    /// The handler finished, possibly asking the actor to stop.
    Finished(Option<ActorStopReason>),
    /// The handler panicked.
    Panicked(PanicErr),
}

/// What happened since the last action.
pub enum LifecycleEvent {
    /// `on_start` returned (an error or a panic in it is `Err`).
    Started(Result<(), PanicErr>),
    /// The mailbox produced a signal.
    Received(Received),
    /// A concurrent read was spawned.
    ReadSpawned,
    /// A concurrent read ended.
    ReadJoined(ReadOutcome),
    /// The exclusively handled message finished, possibly asking the actor to stop.
    Handled(Option<ActorStopReason>),
    /// `on_link_died` returned.
    LinkHookReturned(Result<Option<ActorStopReason>, PanicErr>),
    /// The mailbox loop panicked while running a handler or a hook.
    LoopPanicked(PanicErr),
    /// `on_panic` returned.
    PanicHookReturned(Result<Option<ActorStopReason>, PanicErr>),
    /// The actor was killed through its abort handle.
    Aborted,
    /// Every linked actor was notified.
    LinksNotified,
    /// `on_stop` returned.
    StopHookReturned(Result<(), PanicErr>),
    /// The stop error hook ran.
    StopErrorReported,
}

/// What the runtime has to do next.
pub enum Action {
    /// Call `on_start`.
    CallOnStart,
    /// Wait for the next mailbox signal or for a concurrent read to end.
    Receive,
    /// Run the received read-only message concurrently with other reads.
    SpawnRead,
    /// Wait for the next concurrent read to end.
    JoinRead,
    /// Handle the received message with exclusive access to the actor.
    HandleMessage,
    /// Call `on_link_died` with these arguments.
    CallOnLinkDied { id: u64, reason: ActorStopReason },
    /// Cancel concurrent reads, then call `on_panic` with this error.
    CallOnPanic(PanicErr),
    /// Cancel concurrent reads, then tell every linked actor that this one died for this reason.
    NotifyLinks(ActorStopReason),
    /// Call `on_stop` with this reason.
    CallOnStop(ActorStopReason),
    /// Hand this `on_stop` error to the stop error hook.
    ReportStopError(PanicErr),
    /// The actor is done.
    Exit,
}

/// What waits for concurrent reads to end.
pub enum Pending {
    /// A message that needs exclusive access: waits for every read.
    Message,
    /// A stop request or a closed mailbox: waits for every read.
    Stop,
    /// A linked actor's death: waits for every read.
    LinkDied { id: u64, reason: ActorStopReason },
    /// A read-only message while as many reads as allowed are running: waits
    /// for one read to end.
    Read,
}

/// Where an actor is in its life.
pub enum Phase {
    /// `on_start` is running.
    Starting,
    /// Waiting on the mailbox and on concurrent reads.
    Receiving,
    /// A read-only message is being spawned; where a reason is given, the
    /// actor then dies for it.
    Spawning(Option<ActorStopReason>),
    /// Waiting for concurrent reads to end before `Pending`.
    Draining(Pending),
    /// A message is being handled exclusively.
    Handling,
    /// `on_link_died` is running.
    LinkHook,
    /// `on_panic` is running after a handler panicked; what was waiting for
    /// reads to end, if anything, follows once it lets the actor go on.
    PanicHook(Option<Pending>),
    /// Linked actors are being told of the death.
    Notifying(ActorStopReason),
    /// `on_stop` is running.
    Stopping,
    /// The stop error hook is running.
    Reporting,
    /// The actor is done.
    Finished,
}

/// The state of an actor's lifecycle: its phase, how many concurrent reads
/// were spawned and not yet joined, and how many may be at once.
pub struct Lifecycle {
    pub phase: Phase,
    pub in_flight: u64,
    pub max_reads: u64,
}

/// What follows once the reads that `p` waits for have ended (none is left
/// in flight but for `Read`, which then takes the free place).
pub open spec fn after_drain(p: Pending, m: u64) -> (Lifecycle, Action) {
    match p {
        Pending::Message => (Lifecycle { phase: Phase::Handling, in_flight: 0, max_reads: m }, Action::HandleMessage),
        Pending::Stop => dying(ActorStopReason::Normal, m),
        Pending::LinkDied { id, reason } => (
            Lifecycle { phase: Phase::LinkHook, in_flight: 0, max_reads: m },
            Action::CallOnLinkDied { id, reason },
        ),
        Pending::Read => (Lifecycle { phase: Phase::Spawning(None), in_flight: 1, max_reads: m }, Action::SpawnRead),
    }
}

/// The actor dies for `reason`: concurrent reads are cancelled and links are told.
pub open spec fn dying(reason: ActorStopReason, m: u64) -> (Lifecycle, Action) {
    (Lifecycle { phase: Phase::Notifying(reason), in_flight: 0, max_reads: m }, Action::NotifyLinks(reason))
}

/// Waiting on the mailbox with `n` concurrent reads in flight.
pub open spec fn receiving(n: u64, m: u64) -> (Lifecycle, Action) {
    (Lifecycle { phase: Phase::Receiving, in_flight: n, max_reads: m }, Action::Receive)
}

/// A handler panicked: concurrent reads are cancelled and `on_panic` decides,
/// with `p` waiting.
pub open spec fn panicking(err: PanicErr, p: Option<Pending>, m: u64) -> (Lifecycle, Action) {
    (Lifecycle { phase: Phase::PanicHook(p), in_flight: 0, max_reads: m }, Action::CallOnPanic(err))
}

/// Whether the phase runs inside the abortable part of the lifecycle.
pub open spec fn abortable(p: Phase) -> bool {
    match p {
        Phase::Receiving | Phase::Spawning(_) | Phase::Draining(_) | Phase::Handling
        | Phase::LinkHook | Phase::PanicHook(_) => true,
        _ => false,
    }
}

impl Lifecycle {
    /// Whether `e` can happen in this state.
    pub open spec fn expects(self, e: LifecycleEvent) -> bool {
        match e {
            LifecycleEvent::Started(_) => self.phase is Starting,
            LifecycleEvent::Received(r) => self.phase is Receiving && (match r {
                Received::Message { read_only } => read_only ==> (self.in_flight < self.max_reads
                    || self.in_flight > 0),
                _ => true,
            }),
            LifecycleEvent::ReadSpawned => self.phase is Spawning,
            LifecycleEvent::ReadJoined(_) => (self.phase is Receiving || self.phase is Draining)
                && self.in_flight > 0,
            LifecycleEvent::Handled(_) => self.phase is Handling,
            LifecycleEvent::LinkHookReturned(_) => self.phase is LinkHook,
            LifecycleEvent::LoopPanicked(_) => self.phase is Handling || self.phase is LinkHook,
            LifecycleEvent::PanicHookReturned(_) => self.phase is PanicHook,
            LifecycleEvent::Aborted => abortable(self.phase),
            LifecycleEvent::LinksNotified => self.phase is Notifying,
            LifecycleEvent::StopHookReturned(_) => self.phase is Stopping,
            LifecycleEvent::StopErrorReported => self.phase is Reporting,
        }
    }

    /// The next state and the action to perform, when `e` happens in this state.
    pub open spec fn next(self, e: LifecycleEvent) -> (Lifecycle, Action) {
        let n = self.in_flight;
        let m = self.max_reads;
        match e {
            LifecycleEvent::Started(Ok(())) => receiving(0, m),
            LifecycleEvent::Started(Err(err)) => dying(ActorStopReason::Panicked(err), m),
            LifecycleEvent::Received(r) => match r {
                Received::Message { read_only } => if read_only {
                    if n < m {
                        (Lifecycle { phase: Phase::Spawning(None), in_flight: (n + 1) as u64, max_reads: m }, Action::SpawnRead)
                    } else {
                        (Lifecycle { phase: Phase::Draining(Pending::Read), in_flight: n, max_reads: m }, Action::JoinRead)
                    }
                } else if n == 0 {
                    after_drain(Pending::Message, m)
                } else {
                    (Lifecycle { phase: Phase::Draining(Pending::Message), in_flight: n, max_reads: m }, Action::JoinRead)
                },
                Received::Stop | Received::Closed => if n == 0 {
                    after_drain(Pending::Stop, m)
                } else {
                    (Lifecycle { phase: Phase::Draining(Pending::Stop), in_flight: n, max_reads: m }, Action::JoinRead)
                },
                Received::LinkDied { id, reason } => if n == 0 {
                    after_drain(Pending::LinkDied { id, reason }, m)
                } else {
                    (
                        Lifecycle { phase: Phase::Draining(Pending::LinkDied { id, reason }), in_flight: n, max_reads: m },
                        Action::JoinRead,
                    )
                },
            },
            LifecycleEvent::ReadSpawned => match self.phase {
                Phase::Spawning(Some(reason)) => dying(reason, m),
                _ => receiving(n, m),
            },
            LifecycleEvent::ReadJoined(outcome) => match outcome {
                ReadOutcome::Finished(Some(reason)) => match self.phase {
                    Phase::Draining(Pending::Read) => (
                        Lifecycle { phase: Phase::Spawning(Some(reason)), in_flight: n, max_reads: m },
                        Action::SpawnRead,
                    ),
                    _ => dying(reason, m),
                },
                ReadOutcome::Panicked(err) => match self.phase {
                    Phase::Draining(p) => panicking(err, Some(p), m),
                    _ => panicking(err, None, m),
                },
                ReadOutcome::Finished(None) => match self.phase {
                    Phase::Draining(p) => match p {
                        Pending::Read => (Lifecycle { phase: Phase::Spawning(None), in_flight: n, max_reads: m }, Action::SpawnRead),
                        _ => if n == 1 {
                            after_drain(p, m)
                        } else {
                            (Lifecycle { phase: Phase::Draining(p), in_flight: (n - 1) as u64, max_reads: m }, Action::JoinRead)
                        },
                    },
                    _ => receiving((n - 1) as u64, m),
                },
            },
            LifecycleEvent::Handled(None) => receiving(0, m),
            LifecycleEvent::Handled(Some(reason)) => dying(reason, m),
            LifecycleEvent::LinkHookReturned(Ok(None)) => receiving(0, m),
            LifecycleEvent::LinkHookReturned(Ok(Some(reason))) => dying(reason, m),
            LifecycleEvent::LinkHookReturned(Err(err)) => dying(ActorStopReason::Panicked(err), m),
            LifecycleEvent::LoopPanicked(err) => panicking(err, None, m),
            LifecycleEvent::PanicHookReturned(Ok(None)) => match self.phase {
                Phase::PanicHook(Some(p)) => after_drain(p, m),
                _ => receiving(0, m),
            },
            LifecycleEvent::PanicHookReturned(Ok(Some(reason))) => dying(reason, m),
            LifecycleEvent::PanicHookReturned(Err(err)) => dying(ActorStopReason::Panicked(err), m),
            LifecycleEvent::Aborted => dying(ActorStopReason::Killed, m),
            LifecycleEvent::LinksNotified => match self.phase {
                Phase::Notifying(reason) => (
                    Lifecycle { phase: Phase::Stopping, in_flight: 0, max_reads: m },
                    Action::CallOnStop(reason),
                ),
                _ => (self, Action::Exit),
            },
            LifecycleEvent::StopHookReturned(Ok(())) => (
                Lifecycle { phase: Phase::Finished, in_flight: 0, max_reads: m },
                Action::Exit,
            ),
            LifecycleEvent::StopHookReturned(Err(err)) => (
                Lifecycle { phase: Phase::Reporting, in_flight: 0, max_reads: m },
                Action::ReportStopError(err),
            ),
            LifecycleEvent::StopErrorReported => (
                Lifecycle { phase: Phase::Finished, in_flight: 0, max_reads: m },
                Action::Exit,
            ),
        }
    }
}

fn exec_dying(reason: ActorStopReason, m: u64) -> (r: (Lifecycle, Action))
    ensures
        r == dying(reason, m),
{
    let copy = reason.duplicate();
    (Lifecycle { phase: Phase::Notifying(reason), in_flight: 0, max_reads: m }, Action::NotifyLinks(copy))
}

fn exec_after_drain(p: Pending, m: u64) -> (r: (Lifecycle, Action))
    ensures
        r == after_drain(p, m),
{
    match p {
        Pending::Message => (Lifecycle { phase: Phase::Handling, in_flight: 0, max_reads: m }, Action::HandleMessage),
        Pending::Stop => exec_dying(ActorStopReason::Normal, m),
        Pending::LinkDied { id, reason } => (
            Lifecycle { phase: Phase::LinkHook, in_flight: 0, max_reads: m },
            Action::CallOnLinkDied { id, reason },
        ),
        Pending::Read => (Lifecycle { phase: Phase::Spawning(None), in_flight: 1, max_reads: m }, Action::SpawnRead),
    }
}

impl Lifecycle {
    /// A lifecycle about to start, allowing `max_reads` read-only messages to
    /// run at once: the first action calls `on_start`.
    pub fn new(max_reads: u64) -> (r: (Lifecycle, Action))
        ensures
            r.0 == (Lifecycle { phase: Phase::Starting, in_flight: 0, max_reads }),
            r.1 == Action::CallOnStart,
    {
        (Lifecycle { phase: Phase::Starting, in_flight: 0, max_reads }, Action::CallOnStart)
    }

    /// Whether the actor is done.
    pub fn is_finished(&self) -> (b: bool)
        ensures
            b == (self.phase is Finished),
    {
        match self.phase {
            Phase::Finished => true,
            _ => false,
        }
    }

    /// Whether `e` can happen in this state.
    pub fn accepts(&self, e: &LifecycleEvent) -> (b: bool)
        ensures
            b == self.expects(*e),
    {
        match e {
            LifecycleEvent::Started(_) => matches!(self.phase, Phase::Starting),
            LifecycleEvent::Received(r) => matches!(self.phase, Phase::Receiving) && match r {
                Received::Message { read_only } => !*read_only || self.in_flight < self.max_reads
                    || self.in_flight > 0,
                _ => true,
            },
            LifecycleEvent::ReadSpawned => matches!(self.phase, Phase::Spawning(_)),
            LifecycleEvent::ReadJoined(_) => (matches!(self.phase, Phase::Receiving) || matches!(self.phase, Phase::Draining(_)))
                && self.in_flight > 0,
            LifecycleEvent::Handled(_) => matches!(self.phase, Phase::Handling),
            LifecycleEvent::LinkHookReturned(_) => matches!(self.phase, Phase::LinkHook),
            LifecycleEvent::LoopPanicked(_) => matches!(self.phase, Phase::Handling) || matches!(self.phase, Phase::LinkHook),
            LifecycleEvent::PanicHookReturned(_) => matches!(self.phase, Phase::PanicHook(_)),
            LifecycleEvent::Aborted => match self.phase {
                Phase::Receiving | Phase::Spawning(_) | Phase::Draining(_) | Phase::Handling
                | Phase::LinkHook | Phase::PanicHook(_) => true,
                _ => false,
            },
            LifecycleEvent::LinksNotified => matches!(self.phase, Phase::Notifying(_)),
            LifecycleEvent::StopHookReturned(_) => matches!(self.phase, Phase::Stopping),
            LifecycleEvent::StopErrorReported => matches!(self.phase, Phase::Reporting),
        }
    }

    /// Moves to the next state on `e` and returns the action to perform.
    pub fn step(&mut self, e: LifecycleEvent) -> (a: Action)
        requires
            old(self).expects(e),
        ensures
            (*final(self), a) == old(self).next(e),
    {
        let n = self.in_flight;
        let m = self.max_reads;
        let mut phase = Phase::Finished;
        std::mem::swap(&mut phase, &mut self.phase);
        let (next, action) = match e {
            LifecycleEvent::Started(Ok(())) => (Lifecycle { phase: Phase::Receiving, in_flight: 0, max_reads: m }, Action::Receive),
            LifecycleEvent::Started(Err(err)) => exec_dying(ActorStopReason::Panicked(err), m),
            LifecycleEvent::Received(r) => match r {
                Received::Message { read_only } => if read_only {
                    if n < m {
                        (Lifecycle { phase: Phase::Spawning(None), in_flight: n + 1, max_reads: m }, Action::SpawnRead)
                    } else {
                        (Lifecycle { phase: Phase::Draining(Pending::Read), in_flight: n, max_reads: m }, Action::JoinRead)
                    }
                } else if n == 0 {
                    exec_after_drain(Pending::Message, m)
                } else {
                    (Lifecycle { phase: Phase::Draining(Pending::Message), in_flight: n, max_reads: m }, Action::JoinRead)
                },
                Received::Stop | Received::Closed => if n == 0 {
                    exec_after_drain(Pending::Stop, m)
                } else {
                    (Lifecycle { phase: Phase::Draining(Pending::Stop), in_flight: n, max_reads: m }, Action::JoinRead)
                },
                Received::LinkDied { id, reason } => if n == 0 {
                    exec_after_drain(Pending::LinkDied { id, reason }, m)
                } else {
                    (
                        Lifecycle { phase: Phase::Draining(Pending::LinkDied { id, reason }), in_flight: n, max_reads: m },
                        Action::JoinRead,
                    )
                },
            },
            LifecycleEvent::ReadSpawned => match phase {
                Phase::Spawning(Some(reason)) => exec_dying(reason, m),
                _ => (Lifecycle { phase: Phase::Receiving, in_flight: n, max_reads: m }, Action::Receive),
            },
            LifecycleEvent::ReadJoined(outcome) => match outcome {
                ReadOutcome::Finished(Some(reason)) => match phase {
                    Phase::Draining(Pending::Read) => (
                        Lifecycle { phase: Phase::Spawning(Some(reason)), in_flight: n, max_reads: m },
                        Action::SpawnRead,
                    ),
                    _ => exec_dying(reason, m),
                },
                ReadOutcome::Panicked(err) => match phase {
                    Phase::Draining(p) => (
                        Lifecycle { phase: Phase::PanicHook(Some(p)), in_flight: 0, max_reads: m },
                        Action::CallOnPanic(err),
                    ),
                    _ => (Lifecycle { phase: Phase::PanicHook(None), in_flight: 0, max_reads: m }, Action::CallOnPanic(err)),
                },
                ReadOutcome::Finished(None) => match phase {
                    Phase::Draining(p) => match p {
                        Pending::Read => (Lifecycle { phase: Phase::Spawning(None), in_flight: n, max_reads: m }, Action::SpawnRead),
                        _ => if n == 1 {
                            exec_after_drain(p, m)
                        } else {
                            (Lifecycle { phase: Phase::Draining(p), in_flight: n - 1, max_reads: m }, Action::JoinRead)
                        },
                    },
                    _ => (Lifecycle { phase: Phase::Receiving, in_flight: n - 1, max_reads: m }, Action::Receive),
                },
            },
            LifecycleEvent::Handled(None) => (Lifecycle { phase: Phase::Receiving, in_flight: 0, max_reads: m }, Action::Receive),
            LifecycleEvent::Handled(Some(reason)) => exec_dying(reason, m),
            LifecycleEvent::LinkHookReturned(Ok(None)) => (Lifecycle { phase: Phase::Receiving, in_flight: 0, max_reads: m }, Action::Receive),
            LifecycleEvent::LinkHookReturned(Ok(Some(reason))) => exec_dying(reason, m),
            LifecycleEvent::LinkHookReturned(Err(err)) => exec_dying(ActorStopReason::Panicked(err), m),
            LifecycleEvent::LoopPanicked(err) => (
                Lifecycle { phase: Phase::PanicHook(None), in_flight: 0, max_reads: m },
                Action::CallOnPanic(err),
            ),
            LifecycleEvent::PanicHookReturned(Ok(None)) => match phase {
                Phase::PanicHook(Some(p)) => exec_after_drain(p, m),
                _ => (Lifecycle { phase: Phase::Receiving, in_flight: 0, max_reads: m }, Action::Receive),
            },
            LifecycleEvent::PanicHookReturned(Ok(Some(reason))) => exec_dying(reason, m),
            LifecycleEvent::PanicHookReturned(Err(err)) => exec_dying(ActorStopReason::Panicked(err), m),
            LifecycleEvent::Aborted => exec_dying(ActorStopReason::Killed, m),
            LifecycleEvent::LinksNotified => match phase {
                Phase::Notifying(reason) => (
                    Lifecycle { phase: Phase::Stopping, in_flight: 0, max_reads: m },
                    Action::CallOnStop(reason),
                ),
                _ => (Lifecycle { phase, in_flight: n, max_reads: m }, Action::Exit),
            },
            LifecycleEvent::StopHookReturned(Ok(())) => (Lifecycle { phase: Phase::Finished, in_flight: 0, max_reads: m }, Action::Exit),
            LifecycleEvent::StopHookReturned(Err(err)) => (
                Lifecycle { phase: Phase::Reporting, in_flight: 0, max_reads: m },
                Action::ReportStopError(err),
            ),
            LifecycleEvent::StopErrorReported => (Lifecycle { phase: Phase::Finished, in_flight: 0, max_reads: m }, Action::Exit),
        };
        *self = next;
        action
    }
}

} // verus!
