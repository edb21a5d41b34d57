use std::any::Any;
use std::sync::{Arc, Mutex, MutexGuard, TryLockError};
use vstd::prelude::*;

verus! {

/// Error that can occur when sending a message to an actor.
#[derive(Clone, Copy, PartialEq, Eq)]
pub enum SendError<E = ()> {
    /// The actor isn't running; the unsent value is handed back.
    ActorNotRunning(E),
    /// The actor panicked or was stopped.
    ActorStopped,
}

impl<E> SendError<E> {
    /// The human-readable text of this error.
    pub fn describe(&self) -> (s: &'static str)
        ensures
            s@ == match self {
                SendError::ActorNotRunning(_) => "actor not running"@,
                SendError::ActorStopped => "actor stopped"@,
            },
    {
        match self {
            SendError::ActorNotRunning(_) => "actor not running",
            SendError::ActorStopped => "actor stopped",
        }
    }

    /// The debugging text of this error: its variant's name, without the unsent value.
    pub fn debug_name(&self) -> (s: &'static str)
        ensures
            s@ == match self {
                SendError::ActorNotRunning(_) => "ActorNotRunning"@,
                SendError::ActorStopped => "ActorStopped"@,
            },
    {
        match self {
            SendError::ActorNotRunning(_) => "ActorNotRunning",
            SendError::ActorStopped => "ActorStopped",
        }
    }

    /// Drops the unsent value, keeping only which error occurred.
    pub fn reset(self) -> (r: SendError<()>)
        ensures
            (r is ActorNotRunning) <==> (self is ActorNotRunning),
            (r is ActorStopped) <==> (self is ActorStopped),
    {
        match self {
            SendError::ActorNotRunning(_) => SendError::ActorNotRunning(()),
            SendError::ActorStopped => SendError::ActorStopped,
        }
    }
}

/// A panic payload that is neither a `&'static str` nor a `String`: a boxed
/// value of any type, held behind its own lock so that it can be shared
/// between threads.
#[verifier::external_body]
pub struct ErasedPayload(pub Mutex<Box<dyn Any + Send>>);

/// What an actor panicked with, or the error a hook returned.
pub enum PanicPayload {
    /// A `&'static str` payload, as `panic!("literal")` produces.
    Str(&'static str),
    /// A `String` payload, as a formatted `panic!` produces.
    Owned(String),
    /// Any other value.
    Erased(ErasedPayload),
}

/// `std::sync::Mutex`, declared so that a lock can be held; its state (held,
/// poisoned) is not modelled.
#[verifier::external_type_specification]
#[verifier::external_body]
#[verifier::reject_recursive_types(T)]
pub struct ExMutex<T: ?Sized>(Mutex<T>);

/// `std::sync::MutexGuard`, declared so that a guard can be held while a
/// closure runs.
#[verifier::external_type_specification]
#[verifier::external_body]
#[verifier::reject_recursive_types(T)]
pub struct ExMutexGuard<'a, T: ?Sized + 'a>(MutexGuard<'a, T>);

/// Calls `std::sync::Mutex::new` on `()`: a fresh lock. Nothing is stated of it.
#[verifier::external_body]
fn new_lock() -> Mutex<()> {
    Mutex::new(())
}

/// Calls `std::sync::Mutex::try_lock`, which never blocks: the guard; or
/// `Poisoned` where a closure panicked while holding the lock; or `Held` where
/// the lock is held at this moment (by this thread, inside a closure that reads
/// the same error, or by another thread). Which of these comes back depends on
/// what happened before and on other threads, so nothing is stated of it.
#[verifier::external_body]
fn try_lock(m: &Mutex<()>) -> Result<MutexGuard<'_, ()>, LockError> {
    match m.try_lock() {
        Ok(guard) => Ok(guard),
        Err(TryLockError::Poisoned(_)) => Err(LockError::Poisoned),
        Err(TryLockError::WouldBlock) => Err(LockError::Held),
    }
}

/// Why the payload could not be read.
#[derive(Clone, Copy, PartialEq, Eq, Debug, Structural)]
pub enum LockError {
    /// A closure panicked while reading the payload before.
    Poisoned,
    /// The payload is being read at this moment, by a closure that reads the
    /// same error or by another thread.
    Held,
}

/// A shared error that occurs when an actor panics or returns an error from a hook.
/// Clones share the same payload and the same lock: once a closure panics while
/// reading the payload, every later read through any clone reports the poisoned
/// lock, and while one closure reads it, any other read reports it held.
pub struct PanicErr {
    payload: Arc<PanicPayload>,
    lock: Arc<Mutex<()>>,
}

/// The text of a payload: the string for string payloads, nothing otherwise.
pub open spec fn payload_text(p: PanicPayload) -> Option<Seq<char>> {
    match p {
        PanicPayload::Str(s) => Some(s@),
        PanicPayload::Owned(s) => Some(s@),
        PanicPayload::Erased(_) => None,
    }
}

impl Clone for PanicErr {
    fn clone(&self) -> (r: Self)
        ensures
            r == *self,
    {
        PanicErr { payload: Arc::clone(&self.payload), lock: Arc::clone(&self.lock) }
    }
}

impl PanicErr {
    /// The payload this error holds.
    pub closed spec fn payload(&self) -> PanicPayload {
        *self.payload
    }

    /// The text of the payload, where the payload is a string.
    pub open spec fn text(&self) -> Option<Seq<char>> {
        payload_text(self.payload())
    }

    /// Creates a new `PanicErr` from a payload.
    pub fn new_boxed(payload: PanicPayload) -> (e: Self)
        ensures
            e.payload() == payload,
    {
        PanicErr { payload: Arc::new(payload), lock: Arc::new(new_lock()) }
    }

    /// The payload this error holds.
    pub fn payload_ref(&self) -> (p: &PanicPayload)
        ensures
            *p == self.payload(),
    {
        &*self.payload
    }

    /// Calls `f` with the payload's text where `lock` is the guard of this
    /// error's lock and the payload is a `&'static str` or a `String`, and
    /// returns its result, or `None` for other payloads. Where `lock` is an
    /// error, `f` is not called and that error is returned.
    pub fn with_str_guard<'a, F, R>(&'a self, lock: Result<MutexGuard<'a, ()>, LockError>, f: F) -> (r: Result<Option<R>, LockError>)
        where
            F: FnOnce(&str) -> R,
        requires
            forall|s: &str| f.requires((s,)),
        ensures
            lock is Ok ==> (r matches Ok(o) && match self.text() {
                Some(t) => o is Some && exists|s: &str| s@ == t && #[trigger] f.ensures((s,), o->0),
                None => o is None,
            }),
            lock matches Err(e) ==> r == Err::<Option<R>, LockError>(e),
    {
        match lock {
            Err(e) => Err(e),
            Ok(_guard) => match &*self.payload {
                PanicPayload::Str(s) => {
                    let o = Some(f(s));
                    assert(f.ensures((*s,), o->0));
                    Ok(o)
                },
                PanicPayload::Owned(s) => {
                    let t = s.as_str();
                    let o = Some(f(t));
                    assert(f.ensures((t,), o->0));
                    Ok(o)
                },
                PanicPayload::Erased(_) => Ok(None),
            },
        }
    }

    /// Takes the payload's lock and calls `f` with the payload's text where the
    /// payload is a `&'static str` or a `String`, returning its result, or
    /// `None` for other payloads. Where the lock is poisoned or held, `f` is
    /// not called and the error is returned.
    pub fn with_str<F, R>(&self, f: F) -> (r: Result<Option<R>, LockError>)
        where
            F: FnOnce(&str) -> R,
        requires
            forall|s: &str| f.requires((s,)),
        ensures
            r matches Ok(o) ==> match self.text() {
                Some(t) => o is Some && exists|s: &str| s@ == t && #[trigger] f.ensures((s,), o->0),
                None => o is None,
            },
    {
        self.with_str_guard(try_lock(&*self.lock), f)
    }

    /// Calls `f` with the payload where `lock` is the guard of this error's
    /// lock, and returns its result. Where `lock` is an error, `f` is not
    /// called and that error is returned.
    pub fn with_guard<'a, F, R>(&'a self, lock: Result<MutexGuard<'a, ()>, LockError>, f: F) -> (r: Result<R, LockError>)
        where
            F: FnOnce(&PanicPayload) -> R,
        requires
            f.requires((&self.payload(),)),
        ensures
            lock is Ok ==> (r matches Ok(v) && f.ensures((&self.payload(),), v)),
            lock matches Err(e) ==> r == Err::<R, LockError>(e),
    {
        match lock {
            Err(e) => Err(e),
            Ok(_guard) => Ok(f(&*self.payload)),
        }
    }

    /// Takes the payload's lock and calls `f` with the payload, returning its
    /// result. Where the lock is poisoned or held, `f` is not called and the
    /// error is returned.
    pub fn with<F, R>(&self, f: F) -> (r: Result<R, LockError>)
        where
            F: FnOnce(&PanicPayload) -> R,
        requires
            f.requires((&self.payload(),)),
        ensures
            r matches Ok(v) ==> f.ensures((&self.payload(),), v),
    {
        self.with_guard(try_lock(&*self.lock), f)
    }
}

} // verus!
