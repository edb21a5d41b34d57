//! Pieces shared by the runtime and the code that `#[actor]` generates.
use crate::err::PanicErr;
use crate::reason::ActorStopReason;
use std::sync::atomic::{AtomicU64, Ordering};
use vstd::prelude::*;

verus! {

/// A message type of an actor, as generated from its `#[message]` methods.
pub trait Message {
    /// Whether handling the message only reads the actor's state, so that it
    /// may run concurrently with other such messages.
    fn is_read_only(&self) -> bool;
}

/// What travels through an actor's mailbox.
pub enum Signal<M> {
    /// A message to handle.
    Message(Box<M>),
    /// Stop once the signals before this one are processed.
    Stop,
    /// The linked actor with this id died for this reason.
    LinkDied(u64, ActorStopReason),
}

/// Hands out a fresh actor id from `counter`, the process-wide count of
/// spawned actors, and advances the count.
pub fn new_actor_id(counter: &AtomicU64) -> u64 {
    counter.fetch_add(1, Ordering::Relaxed)
}

/// What a message handler does once the actor's method has returned.
pub enum HandlerStep {
    /// Send the result back to the waiting sender; the actor goes on.
    Reply,
    /// The method failed and nobody waits for its result: call `on_panic` with the error.
    CallOnPanic(PanicErr),
    /// The actor goes on.
    Continue,
}

/// Decides what a message handler does after the actor's method returned:
/// `has_reply` tells whether a sender waits for the result, `failure` holds
/// the error of a fallible method that failed.
pub fn after_message(has_reply: bool, failure: Option<PanicErr>) -> (step: HandlerStep)
    ensures
        step == (if has_reply {
            HandlerStep::Reply
        } else {
            match failure {
                Some(err) => HandlerStep::CallOnPanic(err),
                None => HandlerStep::Continue,
            }
        }),
{
    if has_reply {
        return HandlerStep::Reply;
    }
    match failure {
        Some(err) => HandlerStep::CallOnPanic(err),
        None => HandlerStep::Continue,
    }
}

/// The stop reason that follows `on_panic`'s result, if any: the reason it
/// returned, or the error it failed with.
pub fn after_on_panic(result: Result<Option<ActorStopReason>, PanicErr>) -> (r: Option<ActorStopReason>)
    ensures
        r == match result {
            Ok(reason) => reason,
            Err(err) => Some(ActorStopReason::Panicked(err)),
        },
{
    match result {
        Ok(reason) => reason,
        Err(err) => Some(ActorStopReason::Panicked(err)),
    }
}

} // verus!
