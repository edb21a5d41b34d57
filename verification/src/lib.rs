//! Actor-based concurrency: the verified core.
//!
//! This crate holds the decisions of an actor runtime as functions with
//! contracts: the lifecycle of an actor (start, mailbox processing with
//! concurrent read-only messages, panics, links, stop), the link tables that
//! tie actors together, the stop reasons and errors with their texts, and the
//! planning that the `#[actor]` code generator performs on a message
//! signature.
pub mod err;
pub mod text;
pub mod reason;
pub mod lifecycle;
pub mod lifecycle_laws;
pub mod links;
pub mod internal;
pub mod actor;
pub mod spawn;
pub mod stop_error_hook;
pub mod codegen;

pub use crate::err::{ErasedPayload, LockError, PanicErr, PanicPayload, SendError};
pub use crate::internal::{Message, Signal};
pub use crate::links::Links;
pub use crate::reason::ActorStopReason;
pub use crate::spawn::Spawn;
