use simpl_actor::err::{PanicErr, PanicPayload};
use simpl_actor::lifecycle::{Action, Lifecycle, LifecycleEvent, ReadOutcome, Received};
use simpl_actor::reason::ActorStopReason;

fn started() -> Lifecycle {
    started_with(4)
}

fn started_with(max_reads: u64) -> Lifecycle {
    let (mut lc, first) = Lifecycle::new(max_reads);
    assert!(matches!(first, Action::CallOnStart));
    let a = lc.step(LifecycleEvent::Started(Ok(())));
    assert!(matches!(a, Action::Receive));
    lc
}

fn step(lc: &mut Lifecycle, e: LifecycleEvent) -> Action {
    assert!(lc.accepts(&e));
    lc.step(e)
}

fn reason_of(a: &Action) -> String {
    match a {
        Action::NotifyLinks(r) => r.describe(),
        Action::CallOnStop(r) => r.describe(),
        _ => panic!("not a stop action"),
    }
}

#[test]
fn stop_signal_without_reads_stops_normally() {
    let mut lc = started();
    let a = step(&mut lc, LifecycleEvent::Received(Received::Stop));
    assert_eq!(reason_of(&a), "actor stopped normally");
    let a = step(&mut lc, LifecycleEvent::LinksNotified);
    assert!(matches!(a, Action::CallOnStop(ActorStopReason::Normal)));
    let a = step(&mut lc, LifecycleEvent::StopHookReturned(Ok(())));
    assert!(matches!(a, Action::Exit));
    assert!(lc.is_finished());
    assert!(!lc.accepts(&LifecycleEvent::Aborted));
}

#[test]
fn stop_waits_for_running_reads() {
    let mut lc = started();
    for _ in 0..2 {
        let a = step(&mut lc, LifecycleEvent::Received(Received::Message { read_only: true }));
        assert!(matches!(a, Action::SpawnRead));
        let a = step(&mut lc, LifecycleEvent::ReadSpawned);
        assert!(matches!(a, Action::Receive));
    }
    assert_eq!(lc.in_flight, 2);
    let a = step(&mut lc, LifecycleEvent::Received(Received::Stop));
    assert!(matches!(a, Action::JoinRead));
    assert!(!lc.accepts(&LifecycleEvent::Received(Received::Stop)));
    let a = step(&mut lc, LifecycleEvent::ReadJoined(ReadOutcome::Finished(None)));
    assert!(matches!(a, Action::JoinRead));
    let a = step(&mut lc, LifecycleEvent::ReadJoined(ReadOutcome::Finished(None)));
    assert!(matches!(a, Action::NotifyLinks(ActorStopReason::Normal)));
    assert_eq!(lc.in_flight, 0);
}

#[test]
fn closed_mailbox_stops_normally() {
    let mut lc = started();
    let a = step(&mut lc, LifecycleEvent::Received(Received::Closed));
    assert!(matches!(a, Action::NotifyLinks(ActorStopReason::Normal)));
}

#[test]
fn exclusive_message_waits_for_reads() {
    let mut lc = started();
    step(&mut lc, LifecycleEvent::Received(Received::Message { read_only: true }));
    step(&mut lc, LifecycleEvent::ReadSpawned);
    let a = step(&mut lc, LifecycleEvent::Received(Received::Message { read_only: false }));
    assert!(matches!(a, Action::JoinRead));
    let a = step(&mut lc, LifecycleEvent::ReadJoined(ReadOutcome::Finished(None)));
    assert!(matches!(a, Action::HandleMessage));
    assert_eq!(lc.in_flight, 0);
    let a = step(&mut lc, LifecycleEvent::Handled(None));
    assert!(matches!(a, Action::Receive));
}

#[test]
fn exclusive_message_without_reads_runs_at_once() {
    let mut lc = started();
    let a = step(&mut lc, LifecycleEvent::Received(Received::Message { read_only: false }));
    assert!(matches!(a, Action::HandleMessage));
    let a = step(&mut lc, LifecycleEvent::Handled(Some(ActorStopReason::Killed)));
    assert_eq!(reason_of(&a), "actor was killed");
}

#[test]
fn finished_read_returns_to_receiving() {
    let mut lc = started();
    step(&mut lc, LifecycleEvent::Received(Received::Message { read_only: true }));
    step(&mut lc, LifecycleEvent::ReadSpawned);
    let a = step(&mut lc, LifecycleEvent::ReadJoined(ReadOutcome::Finished(None)));
    assert!(matches!(a, Action::Receive));
    assert_eq!(lc.in_flight, 0);
}

#[test]
fn panicking_read_goes_to_on_panic() {
    let mut lc = started();
    for _ in 0..2 {
        step(&mut lc, LifecycleEvent::Received(Received::Message { read_only: true }));
        step(&mut lc, LifecycleEvent::ReadSpawned);
    }
    let err = PanicErr::new_boxed(PanicPayload::Str("read failed"));
    let a = step(&mut lc, LifecycleEvent::ReadJoined(ReadOutcome::Panicked(err)));
    match &a {
        Action::CallOnPanic(e) => {
            assert_eq!(e.with_str(|s| s.to_string()), Ok(Some("read failed".to_string())));
        }
        _ => panic!("expected on_panic"),
    }
    assert_eq!(lc.in_flight, 0);
    let a = step(&mut lc, LifecycleEvent::PanicHookReturned(Ok(None)));
    assert!(matches!(a, Action::Receive));
    assert_eq!(lc.in_flight, 0);
}

#[test]
fn read_panic_while_draining_keeps_the_waiting_signal() {
    let mut lc = started();
    step(&mut lc, LifecycleEvent::Received(Received::Message { read_only: true }));
    step(&mut lc, LifecycleEvent::ReadSpawned);
    let a = step(&mut lc, LifecycleEvent::Received(Received::Stop));
    assert!(matches!(a, Action::JoinRead));
    let err = PanicErr::new_boxed(PanicPayload::Str("read failed"));
    let a = step(&mut lc, LifecycleEvent::ReadJoined(ReadOutcome::Panicked(err)));
    assert!(matches!(a, Action::CallOnPanic(_)));
    let a = step(&mut lc, LifecycleEvent::PanicHookReturned(Ok(None)));
    assert!(matches!(a, Action::NotifyLinks(ActorStopReason::Normal)));
}

#[test]
fn read_panic_may_stop_through_on_panic() {
    let mut lc = started();
    step(&mut lc, LifecycleEvent::Received(Received::Message { read_only: true }));
    step(&mut lc, LifecycleEvent::ReadSpawned);
    let err = PanicErr::new_boxed(PanicPayload::Str("read failed"));
    step(&mut lc, LifecycleEvent::ReadJoined(ReadOutcome::Panicked(err.clone())));
    let a = step(&mut lc, LifecycleEvent::PanicHookReturned(Ok(Some(ActorStopReason::Panicked(err)))));
    assert_eq!(reason_of(&a), "actor panicked");
}

#[test]
fn reads_beyond_the_limit_wait_for_a_place() {
    let mut lc = started_with(1);
    let a = step(&mut lc, LifecycleEvent::Received(Received::Message { read_only: true }));
    assert!(matches!(a, Action::SpawnRead));
    step(&mut lc, LifecycleEvent::ReadSpawned);
    assert_eq!(lc.in_flight, 1);
    let a = step(&mut lc, LifecycleEvent::Received(Received::Message { read_only: true }));
    assert!(matches!(a, Action::JoinRead));
    assert_eq!(lc.in_flight, 1);
    let a = step(&mut lc, LifecycleEvent::ReadJoined(ReadOutcome::Finished(None)));
    assert!(matches!(a, Action::SpawnRead));
    assert_eq!(lc.in_flight, 1);
    let a = step(&mut lc, LifecycleEvent::ReadSpawned);
    assert!(matches!(a, Action::Receive));
    assert_eq!(lc.in_flight, 1);
}

#[test]
fn waiting_read_is_spawned_before_a_stop() {
    let mut lc = started_with(1);
    step(&mut lc, LifecycleEvent::Received(Received::Message { read_only: true }));
    step(&mut lc, LifecycleEvent::ReadSpawned);
    let a = step(&mut lc, LifecycleEvent::Received(Received::Message { read_only: true }));
    assert!(matches!(a, Action::JoinRead));
    let a = step(&mut lc, LifecycleEvent::ReadJoined(ReadOutcome::Finished(Some(ActorStopReason::Killed))));
    assert!(matches!(a, Action::SpawnRead));
    let a = step(&mut lc, LifecycleEvent::ReadSpawned);
    assert!(matches!(a, Action::NotifyLinks(ActorStopReason::Killed)));
    assert_eq!(lc.in_flight, 0);
}

#[test]
fn no_read_is_accepted_without_a_place() {
    let lc = started_with(0);
    assert!(!lc.accepts(&LifecycleEvent::Received(Received::Message { read_only: true })));
    assert!(lc.accepts(&LifecycleEvent::Received(Received::Message { read_only: false })));
}

#[test]
fn kill_stops_with_killed_from_any_running_phase() {
    let mut lc = started();
    step(&mut lc, LifecycleEvent::Received(Received::Message { read_only: true }));
    step(&mut lc, LifecycleEvent::ReadSpawned);
    let a = step(&mut lc, LifecycleEvent::Aborted);
    assert!(matches!(a, Action::NotifyLinks(ActorStopReason::Killed)));
    assert_eq!(lc.in_flight, 0);
    let a = step(&mut lc, LifecycleEvent::LinksNotified);
    assert!(matches!(a, Action::CallOnStop(ActorStopReason::Killed)));
}

#[test]
fn failed_start_tells_links_then_calls_on_stop() {
    let (mut lc, _) = Lifecycle::new(4);
    let err = PanicErr::new_boxed(PanicPayload::Owned("no start".to_string()));
    let a = step(&mut lc, LifecycleEvent::Started(Err(err)));
    match a {
        Action::NotifyLinks(ActorStopReason::Panicked(e)) => {
            assert_eq!(e.with_str(|s| s.to_string()), Ok(Some("no start".to_string())));
        }
        _ => panic!("expected the links to be told"),
    }
    assert!(!lc.accepts(&LifecycleEvent::Received(Received::Stop)));
    let a = step(&mut lc, LifecycleEvent::LinksNotified);
    assert!(matches!(a, Action::CallOnStop(ActorStopReason::Panicked(_))));
    let e2 = PanicErr::new_boxed(PanicPayload::Str("stop failed"));
    let a = step(&mut lc, LifecycleEvent::StopHookReturned(Err(e2)));
    assert!(matches!(a, Action::ReportStopError(_)));
    let a = step(&mut lc, LifecycleEvent::StopErrorReported);
    assert!(matches!(a, Action::Exit));
    assert!(lc.is_finished());
}

#[test]
fn link_death_goes_through_the_hook() {
    let mut lc = started();
    let a = step(
        &mut lc,
        LifecycleEvent::Received(Received::LinkDied { id: 7, reason: ActorStopReason::Killed }),
    );
    match &a {
        Action::CallOnLinkDied { id, reason } => {
            assert_eq!(*id, 7);
            assert_eq!(reason.describe(), "actor was killed");
        }
        _ => panic!("expected on_link_died"),
    }
    let a = step(&mut lc, LifecycleEvent::LinkHookReturned(Ok(None)));
    assert!(matches!(a, Action::Receive));
    let a = step(
        &mut lc,
        LifecycleEvent::Received(Received::LinkDied { id: 8, reason: ActorStopReason::Killed }),
    );
    assert!(matches!(a, Action::CallOnLinkDied { .. }));
    let a = step(&mut lc, LifecycleEvent::LinkHookReturned(Ok(Some(ActorStopReason::Killed))));
    assert!(matches!(a, Action::NotifyLinks(ActorStopReason::Killed)));
}

#[test]
fn failing_link_hook_stops_with_its_error() {
    let mut lc = started();
    step(&mut lc, LifecycleEvent::Received(Received::LinkDied { id: 1, reason: ActorStopReason::Normal }));
    let err = PanicErr::new_boxed(PanicPayload::Str("hook"));
    let a = step(&mut lc, LifecycleEvent::LinkHookReturned(Err(err)));
    assert_eq!(reason_of(&a), "actor panicked");
}

#[test]
fn panic_hook_may_resume_the_actor() {
    let mut lc = started();
    step(&mut lc, LifecycleEvent::Received(Received::Message { read_only: false }));
    let err = PanicErr::new_boxed(PanicPayload::Str("boom"));
    let a = step(&mut lc, LifecycleEvent::LoopPanicked(err));
    assert!(matches!(a, Action::CallOnPanic(_)));
    let a = step(&mut lc, LifecycleEvent::PanicHookReturned(Ok(None)));
    assert!(matches!(a, Action::Receive));
    step(&mut lc, LifecycleEvent::Received(Received::Message { read_only: false }));
    let err = PanicErr::new_boxed(PanicPayload::Str("boom again"));
    step(&mut lc, LifecycleEvent::LoopPanicked(err));
    let err = PanicErr::new_boxed(PanicPayload::Str("boom"));
    let a = step(&mut lc, LifecycleEvent::PanicHookReturned(Ok(Some(ActorStopReason::Panicked(err)))));
    assert_eq!(reason_of(&a), "actor panicked");
}

#[test]
fn events_out_of_place_are_refused() {
    let (lc, _) = Lifecycle::new(4);
    assert!(!lc.accepts(&LifecycleEvent::Received(Received::Stop)));
    assert!(!lc.accepts(&LifecycleEvent::Aborted));
    let lc = started();
    assert!(!lc.accepts(&LifecycleEvent::ReadJoined(ReadOutcome::Finished(None))));
    assert!(!lc.accepts(&LifecycleEvent::Handled(None)));
    assert!(lc.accepts(&LifecycleEvent::Aborted));
}
