//! What every run of the actor lifecycle keeps.
use crate::lifecycle::{
    after_drain, dying, receiving, Action, Lifecycle, LifecycleEvent, Pending, Phase,
    ReadOutcome, Received,
};
use crate::actor::link_died_default;
use crate::err::PanicErr;
use crate::reason::ActorStopReason;
use vstd::prelude::*;

verus! {

impl Lifecycle {
    /// The count of concurrent reads fits the phase and the limit: reads run
    /// only while the actor waits on its mailbox, spawns a read, or drains
    /// reads, and never more than `max_reads` at once.
    pub open spec fn wf(self) -> bool {
        match self.phase {
            Phase::Receiving => self.in_flight <= self.max_reads,
            Phase::Spawning(_) => 0 < self.in_flight <= self.max_reads,
            Phase::Draining(p) => 0 < self.in_flight <= self.max_reads && (p is Read ==> self.in_flight
                == self.max_reads),
            Phase::PanicHook(Some(Pending::Read)) => self.in_flight == 0 && self.max_reads >= 1,
            _ => self.in_flight == 0,
        }
    }
}

/// Whether `on_stop` has been called, or the actor is past it.
pub open spec fn past_stop(p: Phase) -> bool {
    p is Stopping || p is Reporting || p is Finished
}

/// Whether linked actors have been told, or the actor is past that point.
pub open spec fn past_links(p: Phase) -> bool {
    p is Notifying || past_stop(p)
}

/// Performs the events one after the other from `s`: the final state and the
/// actions asked for, or `None` where an event cannot happen in the state it meets.
pub open spec fn run(s: Lifecycle, es: Seq<LifecycleEvent>) -> Option<(Lifecycle, Seq<Action>)>
    decreases es.len(),
{
    if es.len() == 0 {
        Some((s, Seq::empty()))
    } else if !s.expects(es[0]) {
        None
    } else {
        let (t, a) = s.next(es[0]);
        match run(t, es.drop_first()) {
            Some((u, acts)) => Some((u, seq![a] + acts)),
            None => None,
        }
    }
}

/// The state that `run` ends in.
pub open spec fn run_state(s: Lifecycle, es: Seq<LifecycleEvent>) -> Lifecycle {
    match run(s, es) {
        Some(p) => p.0,
        None => s,
    }
}

/// The actions that `run` asks for.
pub open spec fn run_actions(s: Lifecycle, es: Seq<LifecycleEvent>) -> Seq<Action> {
    match run(s, es) {
        Some(p) => p.1,
        None => Seq::empty(),
    }
}

/// How many times `on_stop` is to be called.
pub open spec fn count_on_stop(acts: Seq<Action>) -> nat
    decreases acts.len(),
{
    if acts.len() == 0 {
        0
    } else {
        (if acts[0] is CallOnStop { 1nat } else { 0nat }) + count_on_stop(acts.drop_first())
    }
}

/// How many times linked actors are to be told of a death.
pub open spec fn count_notify(acts: Seq<Action>) -> nat
    decreases acts.len(),
{
    if acts.len() == 0 {
        0
    } else {
        (if acts[0] is NotifyLinks { 1nat } else { 0nat }) + count_notify(acts.drop_first())
    }
}

/// `k` concurrent reads ending without asking the actor to stop.
pub open spec fn quiet_joins(k: nat) -> Seq<LifecycleEvent> {
    Seq::new(k, |i: int| LifecycleEvent::ReadJoined(ReadOutcome::Finished(None)))
}

/// Every step keeps the count of concurrent reads consistent with the phase
/// and the limit.
pub proof fn lemma_step_keeps_wf(s: Lifecycle, e: LifecycleEvent)
    requires
        s.wf(),
        s.expects(e),
    ensures
        s.next(e).0.wf(),
{
}

/// A new lifecycle starts consistent.
pub proof fn lemma_start_is_wf(m: u64)
    ensures
        (Lifecycle { phase: Phase::Starting, in_flight: 0, max_reads: m }).wf(),
{
}

/// Every state that a run reaches from a consistent state is consistent.
pub proof fn lemma_run_keeps_wf(s: Lifecycle, es: Seq<LifecycleEvent>)
    requires
        s.wf(),
        run(s, es) is Some,
    ensures
        run_state(s, es).wf(),
    decreases es.len(),
{
    if es.len() > 0 {
        let (t, a) = s.next(es[0]);
        lemma_run_keeps_wf(t, es.drop_first());
    }
}

/// No run ever has more than `max_reads` concurrent reads in flight.
pub proof fn lemma_reads_bounded(s: Lifecycle, es: Seq<LifecycleEvent>)
    requires
        s.wf(),
        run(s, es) is Some,
    ensures
        run_state(s, es).in_flight <= run_state(s, es).max_reads,
        run_state(s, es).max_reads == s.max_reads,
    decreases es.len(),
{
    lemma_run_keeps_wf(s, es);
    if es.len() > 0 {
        let (t, a) = s.next(es[0]);
        lemma_reads_bounded(t, es.drop_first());
    }
}

/// A message that needs exclusive access, `on_link_died` and `on_panic` only
/// ever run when no concurrent read is in flight.
pub proof fn lemma_exclusive_access(s: Lifecycle, e: LifecycleEvent)
    requires
        s.wf(),
        s.expects(e),
    ensures
        ({
            let (t, a) = s.next(e);
            (a is HandleMessage || a is CallOnLinkDied || a is CallOnPanic) ==> t.in_flight == 0
        }),
{
}

/// A read-only message is spawned at once while fewer than `max_reads` reads run.
pub proof fn lemma_reads_run_concurrently(n: u64, m: u64)
    requires
        n < m,
    ensures
        (Lifecycle { phase: Phase::Receiving, in_flight: n, max_reads: m }).next(
            LifecycleEvent::Received(Received::Message { read_only: true }),
        ) == (Lifecycle { phase: Phase::Spawning(None), in_flight: (n + 1) as u64, max_reads: m }, Action::SpawnRead),
{
}

/// A read-only message that arrives while `max_reads` reads run waits for one
/// of them to end, then takes its place.
pub proof fn lemma_read_waits_for_a_place(m: u64)
    requires
        m > 0,
    ensures
        ({
            let s = Lifecycle { phase: Phase::Receiving, in_flight: m, max_reads: m };
            let (t, a) = s.next(LifecycleEvent::Received(Received::Message { read_only: true }));
            &&& a == Action::JoinRead
            &&& t == Lifecycle { phase: Phase::Draining(Pending::Read), in_flight: m, max_reads: m }
            &&& t.next(LifecycleEvent::ReadJoined(ReadOutcome::Finished(None))) == (
                Lifecycle { phase: Phase::Spawning(None), in_flight: m, max_reads: m },
                Action::SpawnRead,
            )
        }),
{
}

/// A read-only message that waits for a place is spawned even where the read
/// that leaves asks the actor to stop; the actor then dies for that reason.
pub proof fn lemma_waiting_read_spawned_before_stop(r: ActorStopReason, m: u64)
    requires
        m > 0,
    ensures
        ({
            let s = Lifecycle { phase: Phase::Draining(Pending::Read), in_flight: m, max_reads: m };
            let (t, a) = s.next(LifecycleEvent::ReadJoined(ReadOutcome::Finished(Some(r))));
            &&& a == Action::SpawnRead
            &&& t.next(LifecycleEvent::ReadSpawned) == dying(r, m)
        }),
{
}

/// Killing an actor that has started stops it with the reason `Killed`,
/// whatever it was doing.
pub proof fn lemma_kill_stops_with_killed(s: Lifecycle)
    requires
        s.expects(LifecycleEvent::Aborted),
    ensures
        s.next(LifecycleEvent::Aborted) == dying(ActorStopReason::Killed, s.max_reads),
{
}

/// `on_stop` receives the reason that the linked actors were told.
pub proof fn lemma_stop_reason_matches_links(r: ActorStopReason, m: u64)
    ensures
        (Lifecycle { phase: Phase::Notifying(r), in_flight: 0, max_reads: m }).next(LifecycleEvent::LinksNotified)
            == (Lifecycle { phase: Phase::Stopping, in_flight: 0, max_reads: m }, Action::CallOnStop(r)),
{
}

/// An actor whose `on_start` fails or panics dies with the error: its linked
/// actors are told, then `on_stop` receives the same reason.
pub proof fn lemma_failed_start_tells_links(err: PanicErr, m: u64)
    ensures
        ({
            let s = Lifecycle { phase: Phase::Starting, in_flight: 0, max_reads: m };
            let (t, a) = s.next(LifecycleEvent::Started(Err(err)));
            &&& (t, a) == dying(ActorStopReason::Panicked(err), m)
            &&& t.next(LifecycleEvent::LinksNotified) == (
                Lifecycle { phase: Phase::Stopping, in_flight: 0, max_reads: m },
                Action::CallOnStop(ActorStopReason::Panicked(err)),
            )
        }),
{
}

/// A linked actor's death with any reason but `Normal`, handled by a hook that
/// passes it on, stops the actor with that same reason.
pub proof fn lemma_link_death_propagates(r: ActorStopReason, m: u64)
    ensures
        (Lifecycle { phase: Phase::LinkHook, in_flight: 0, max_reads: m }).next(
            LifecycleEvent::LinkHookReturned(Ok(Some(r))),
        ) == dying(r, m),
{
}

/// A linked actor's death reaches `on_link_died` with the linked actor's id and
/// reason; with the default hook, a normal death is ignored and any other
/// death stops this actor with that same reason.
pub proof fn lemma_link_death_with_default_hook(id: u64, r: ActorStopReason, m: u64)
    ensures
        ({
            let s = Lifecycle { phase: Phase::Receiving, in_flight: 0, max_reads: m };
            let (t, a) = s.next(LifecycleEvent::Received(Received::LinkDied { id, reason: r }));
            &&& a == Action::CallOnLinkDied { id, reason: r }
            &&& t.next(LifecycleEvent::LinkHookReturned(Ok(link_died_default(r)))) == (if r is Normal {
                receiving(0, m)
            } else {
                dying(r, m)
            })
        }),
{
}

/// A panic while handling a message, with the default `on_panic`, stops the
/// actor with the panic as the reason.
pub proof fn lemma_panic_with_default_hook(err: PanicErr, m: u64)
    ensures
        ({
            let s = Lifecycle { phase: Phase::Handling, in_flight: 0, max_reads: m };
            let (t, a) = s.next(LifecycleEvent::LoopPanicked(err));
            &&& a == Action::CallOnPanic(err)
            &&& t.next(LifecycleEvent::PanicHookReturned(Ok(Some(ActorStopReason::Panicked(err)))))
                == dying(ActorStopReason::Panicked(err), m)
        }),
{
}

/// A concurrent read whose handler asks the actor to stop makes the actor die
/// for that reason: the other reads are cancelled, linked actors are told, and
/// nothing more is received. The one exception is a read-only message that
/// waits for the place of the read that ended: it is spawned first, and then
/// the actor dies for that same reason.
pub proof fn lemma_read_stop_request_stops(s: Lifecycle, r: ActorStopReason)
    requires
        s.expects(LifecycleEvent::ReadJoined(ReadOutcome::Finished(Some(r)))),
    ensures
        ({
            let (t, a) = s.next(LifecycleEvent::ReadJoined(ReadOutcome::Finished(Some(r))));
            if s.phase == Phase::Draining(Pending::Read) {
                &&& a == Action::SpawnRead
                &&& t.expects(LifecycleEvent::ReadSpawned)
                &&& t.next(LifecycleEvent::ReadSpawned).1 == Action::NotifyLinks(r)
                &&& t.next(LifecycleEvent::ReadSpawned).0.phase == Phase::Notifying(r)
                &&& t.next(LifecycleEvent::ReadSpawned).0.in_flight == 0
            } else {
                &&& a == Action::NotifyLinks(r)
                &&& t.phase == Phase::Notifying(r)
                &&& t.in_flight == 0
                &&& t.max_reads == s.max_reads
            }
        }),
{
}

/// A read-only handler that panics goes to `on_panic` like any other: the
/// running reads are cancelled and the hook decides; where it lets the actor
/// go on, the actor receives again, or resumes what waited for the reads.
pub proof fn lemma_read_panic_calls_on_panic(s: Lifecycle, err: PanicErr)
    requires
        s.expects(LifecycleEvent::ReadJoined(ReadOutcome::Panicked(err))),
    ensures
        ({
            let (t, a) = s.next(LifecycleEvent::ReadJoined(ReadOutcome::Panicked(err)));
            &&& a == Action::CallOnPanic(err)
            &&& t.in_flight == 0
            &&& t.next(LifecycleEvent::PanicHookReturned(Ok(None))) == match s.phase {
                Phase::Draining(p) => after_drain(p, s.max_reads),
                _ => receiving(0, s.max_reads),
            }
        }),
{
}

/// When `on_panic` lets the actor go on after a handler panicked, it receives
/// again with no read in flight.
pub proof fn lemma_panic_recovery(m: u64)
    ensures
        (Lifecycle { phase: Phase::PanicHook(None), in_flight: 0, max_reads: m }).next(
            LifecycleEvent::PanicHookReturned(Ok(None)),
        ) == receiving(0, m),
{
}

/// A finished actor accepts no event.
pub proof fn lemma_finished_is_final(e: LifecycleEvent, m: u64)
    ensures
        !(Lifecycle { phase: Phase::Finished, in_flight: 0, max_reads: m }).expects(e),
{
}

/// A stop request waits for every running read: with `n` reads in flight, each
/// ending quietly, the actor asks to join reads until the last one, then stops
/// with the reason `Normal`.
pub proof fn lemma_stop_after_reads(n: u64, m: u64)
    requires
        n > 0,
    ensures
        run(
            Lifecycle { phase: Phase::Receiving, in_flight: n, max_reads: m },
            seq![LifecycleEvent::Received(Received::Stop)] + quiet_joins(n as nat),
        ) == Some((
            Lifecycle { phase: Phase::Notifying(ActorStopReason::Normal), in_flight: 0, max_reads: m },
            Seq::new(n as nat, |i: int| Action::JoinRead).push(Action::NotifyLinks(ActorStopReason::Normal)),
        )),
{
    let es = seq![LifecycleEvent::Received(Received::Stop)] + quiet_joins(n as nat);
    assert(es.drop_first() =~= quiet_joins(n as nat));
    lemma_drain_stop(n, m);
    assert(Seq::new(n as nat, |i: int| Action::JoinRead).push(Action::NotifyLinks(ActorStopReason::Normal))
        =~= seq![Action::JoinRead] + Seq::new((n - 1) as nat, |i: int| Action::JoinRead).push(
            Action::NotifyLinks(ActorStopReason::Normal),
        ));
}

/// Draining `k` quiet reads before a stop request.
proof fn lemma_drain_stop(k: u64, m: u64)
    requires
        k > 0,
    ensures
        run(Lifecycle { phase: Phase::Draining(Pending::Stop), in_flight: k, max_reads: m }, quiet_joins(k as nat))
            == Some((
            Lifecycle { phase: Phase::Notifying(ActorStopReason::Normal), in_flight: 0, max_reads: m },
            Seq::new((k - 1) as nat, |i: int| Action::JoinRead).push(Action::NotifyLinks(ActorStopReason::Normal)),
        )),
    decreases k,
{
    let s = Lifecycle { phase: Phase::Draining(Pending::Stop), in_flight: k, max_reads: m };
    let es = quiet_joins(k as nat);
    assert(s.expects(es[0]));
    let (t, a) = s.next(es[0]);
    if k == 1 {
        assert(es.drop_first() =~= Seq::<LifecycleEvent>::empty());
        assert(run(t, es.drop_first()) == Some((t, Seq::<Action>::empty())));
        assert(seq![a] + Seq::<Action>::empty() =~= seq![Action::NotifyLinks(ActorStopReason::Normal)]);
        assert(Seq::new(0nat, |i: int| Action::JoinRead).push(Action::NotifyLinks(ActorStopReason::Normal))
            =~= seq![Action::NotifyLinks(ActorStopReason::Normal)]);
    } else {
        assert(es.drop_first() =~= quiet_joins((k - 1) as nat));
        lemma_drain_stop((k - 1) as u64, m);
        assert(Seq::new((k - 1) as nat, |i: int| Action::JoinRead).push(Action::NotifyLinks(ActorStopReason::Normal))
            =~= seq![Action::JoinRead] + Seq::new((k - 2) as nat, |i: int| Action::JoinRead).push(
                Action::NotifyLinks(ActorStopReason::Normal),
            ));
    }
}

/// Whether a stop request has been received and not yet acted on.
pub open spec fn stop_pending(p: Phase) -> bool {
    p == Phase::Draining(Pending::Stop) || p == Phase::PanicHook(Some(Pending::Stop))
}

/// Once a stop request has been received, the mailbox is never read again:
/// messages sent after it are dropped.
pub proof fn lemma_no_receive_after_stop(s: Lifecycle, es: Seq<LifecycleEvent>)
    requires
        stop_pending(s.phase) || past_links(s.phase),
        run(s, es) is Some,
    ensures
        stop_pending(run_state(s, es).phase) || past_links(run_state(s, es).phase),
    decreases es.len(),
{
    if es.len() > 0 {
        let (t, a) = s.next(es[0]);
        lemma_no_receive_after_stop(t, es.drop_first());
    }
}

/// `on_stop` is called at most once in any run of an actor.
pub proof fn lemma_on_stop_at_most_once(s: Lifecycle, es: Seq<LifecycleEvent>)
    requires
        run(s, es) is Some,
    ensures
        count_on_stop(run_actions(s, es)) <= (if past_stop(s.phase) { 0nat } else { 1nat }),
    decreases es.len(),
{
    if es.len() > 0 {
        let (t, a) = s.next(es[0]);
        lemma_on_stop_at_most_once(t, es.drop_first());
        let acts = run_actions(s, es);
        assert(acts.drop_first() =~= run_actions(t, es.drop_first()));
    }
}

/// An actor that finishes has had `on_stop` called: together with
/// `lemma_on_stop_at_most_once`, exactly once, whether it stopped, was killed,
/// panicked or failed to start.
pub proof fn lemma_finished_called_on_stop(s: Lifecycle, es: Seq<LifecycleEvent>)
    requires
        run(s, es) is Some,
        !past_stop(s.phase),
        run_state(s, es).phase is Finished,
    ensures
        count_on_stop(run_actions(s, es)) == 1,
    decreases es.len(),
{
    lemma_on_stop_at_most_once(s, es);
    if es.len() > 0 {
        let (t, a) = s.next(es[0]);
        let acts = run_actions(s, es);
        assert(acts.drop_first() =~= run_actions(t, es.drop_first()));
        if !(a is CallOnStop) {
            lemma_finished_called_on_stop(t, es.drop_first());
        }
    }
}

/// An actor that finishes has told its linked actors of its death exactly
/// once, whatever the reason, a failed start included.
pub proof fn lemma_finished_notified_links(s: Lifecycle, es: Seq<LifecycleEvent>)
    requires
        run(s, es) is Some,
        !past_links(s.phase),
        run_state(s, es).phase is Finished,
    ensures
        count_notify(run_actions(s, es)) == 1,
    decreases es.len(),
{
    lemma_links_notified_at_most_once(s, es);
    if es.len() > 0 {
        let (t, a) = s.next(es[0]);
        let acts = run_actions(s, es);
        assert(acts.drop_first() =~= run_actions(t, es.drop_first()));
        if !(a is NotifyLinks) {
            lemma_finished_notified_links(t, es.drop_first());
        }
    }
}

/// Linked actors are told of a death at most once in any run of an actor.
pub proof fn lemma_links_notified_at_most_once(s: Lifecycle, es: Seq<LifecycleEvent>)
    requires
        run(s, es) is Some,
    ensures
        count_notify(run_actions(s, es)) <= (if past_links(s.phase) { 0nat } else { 1nat }),
    decreases es.len(),
{
    if es.len() > 0 {
        let (t, a) = s.next(es[0]);
        lemma_links_notified_at_most_once(t, es.drop_first());
        let acts = run_actions(s, es);
        assert(acts.drop_first() =~= run_actions(t, es.drop_first()));
    }
}

} // verus!
