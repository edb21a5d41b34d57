use simpl_actor::err::{ErasedPayload, LockError, PanicErr, PanicPayload, SendError};
use simpl_actor::reason::ActorStopReason;
use std::sync::Mutex;

#[test]
fn send_error_texts() {
    let e: SendError<i64> = SendError::ActorNotRunning(1);
    assert_eq!(e.describe(), "actor not running");
    assert_eq!(e.debug_name(), "ActorNotRunning");
    let s: SendError<i64> = SendError::ActorStopped;
    assert_eq!(s.describe(), "actor stopped");
    assert_eq!(s.debug_name(), "ActorStopped");
}

#[test]
fn send_error_reset_drops_the_value() {
    let e: SendError<(String, u8)> = SendError::ActorNotRunning(("hi".to_string(), 3));
    assert!(e.reset() == SendError::ActorNotRunning(()));
    let s: SendError<(String, u8)> = SendError::ActorStopped;
    assert!(s.reset() == SendError::ActorStopped);
}

#[test]
fn panic_err_gives_string_payloads() {
    let a = PanicErr::new_boxed(PanicPayload::Str("static text"));
    assert_eq!(a.with_str(|s| s.len()), Ok(Some(11)));
    let b = PanicErr::new_boxed(PanicPayload::Owned(format!("owned {}", 5)));
    assert_eq!(b.with_str(|s| s.to_string()), Ok(Some("owned 5".to_string())));
    let c = PanicErr::new_boxed(PanicPayload::Erased(ErasedPayload(Mutex::new(Box::new(42u32)))));
    assert_eq!(c.with_str(|s| s.to_string()), Ok(None));
}

#[test]
fn panic_err_clones_share_the_payload() {
    let a = PanicErr::new_boxed(PanicPayload::Owned("shared".to_string()));
    let b = a.clone();
    assert_eq!(b.with_str(|s| s.to_string()), Ok(Some("shared".to_string())));
    let kind = b.with(|p| match p {
        PanicPayload::Str(_) => 0,
        PanicPayload::Owned(_) => 1,
        PanicPayload::Erased(_) => 2,
    });
    assert_eq!(kind, Ok(1));
}

#[test]
fn stop_reason_texts() {
    assert_eq!(ActorStopReason::Normal.describe(), "actor stopped normally");
    assert_eq!(ActorStopReason::Killed.describe(), "actor was killed");
    let p = ActorStopReason::Panicked(PanicErr::new_boxed(PanicPayload::Str("x")));
    assert_eq!(p.describe(), "actor panicked");
    let nested = ActorStopReason::LinkDied {
        id: 42,
        reason: Box::new(ActorStopReason::LinkDied { id: 0, reason: Box::new(ActorStopReason::Killed) }),
    };
    assert_eq!(
        nested.describe(),
        "link 42 died with reason: link 0 died with reason: actor was killed"
    );
    let big = ActorStopReason::LinkDied { id: u64::MAX, reason: Box::new(ActorStopReason::Normal) };
    assert_eq!(big.describe(), "link 18446744073709551615 died with reason: actor stopped normally");
}

#[test]
fn stop_reason_debug_texts() {
    assert_eq!(ActorStopReason::Normal.debug_string(), "Normal");
    assert_eq!(ActorStopReason::Killed.debug_string(), "Killed");
    let p = ActorStopReason::Panicked(PanicErr::new_boxed(PanicPayload::Str("x")));
    assert_eq!(p.debug_string(), "Panicked");
    let nested = ActorStopReason::LinkDied {
        id: 10,
        reason: Box::new(ActorStopReason::LinkDied { id: 3, reason: Box::new(ActorStopReason::Normal) }),
    };
    assert_eq!(
        nested.debug_string(),
        "LinkDied { id: 10, reason: LinkDied { id: 3, reason: Normal } }"
    );
}

#[test]
fn stop_reason_clone_is_equal() {
    let r = ActorStopReason::LinkDied { id: 9, reason: Box::new(ActorStopReason::Killed) };
    let c = r.clone();
    assert_eq!(c.describe(), r.describe());
    assert_eq!(r.duplicate().debug_string(), "LinkDied { id: 9, reason: Killed }");
}

#[test]
fn reading_inside_a_read_reports_the_lock_held() {
    let a = PanicErr::new_boxed(PanicPayload::Str("boom"));
    let b = a.clone();
    let inner = a.with(|_| b.with_str(|s| s.len()));
    assert_eq!(inner, Ok(Err(LockError::Held)));
    let inner = a.with_str(|_| a.with(|_| 0u8));
    assert_eq!(inner, Ok(Some(Err(LockError::Held))));
    assert_eq!(a.with_str(|s| s.len()), Ok(Some(4)));
}

#[test]
fn reads_follow_the_lock_outcome() {
    let a = PanicErr::new_boxed(PanicPayload::Owned("boom".to_string()));
    let m = Mutex::new(());
    assert_eq!(a.with_str_guard(Ok(m.lock().unwrap()), |s| s.to_string()), Ok(Some("boom".to_string())));
    assert_eq!(a.with_str_guard(Err(LockError::Poisoned), |s| s.to_string()), Err(LockError::Poisoned));
    assert_eq!(a.with_str_guard(Err(LockError::Held), |s| s.to_string()), Err(LockError::Held));
    let kind = |p: &PanicPayload| matches!(p, PanicPayload::Owned(_));
    assert_eq!(a.with_guard(Ok(m.lock().unwrap()), kind), Ok(true));
    assert_eq!(a.with_guard(Err(LockError::Held), kind), Err(LockError::Held));
    let e = PanicErr::new_boxed(PanicPayload::Erased(ErasedPayload(Mutex::new(Box::new(7u8)))));
    assert_eq!(e.with_str_guard(Ok(m.lock().unwrap()), |s| s.len()), Ok(None));
}
