//! The planning that the `#[actor]` code generator does on an `impl` block:
//! which methods are messages, the names and generics of what it generates,
//! and the lifetimes it gives to borrowed message fields.
pub mod actor_plan;
pub mod attrs;
pub mod lifetimes;
pub mod message;
