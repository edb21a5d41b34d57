//! Spawning actors.
use vstd::prelude::*;

verus! {

/// Provides functionality to spawn actors and obtain references to them.
///
/// This trait is implemented by the code that `#[actor]` generates.
pub trait Spawn: Sized {
    /// The type of reference to the actor, allowing for message sending and interaction.
    type Ref;

    /// Spawns the actor, not linked to any other, and returns a reference to it.
    fn spawn(self) -> Self::Ref;

    /// Spawns the actor with a link in both directions between the current
    /// actor and the new one: if either dies, the other is told.
    fn spawn_link(self) -> Self::Ref;

    /// Spawns the actor as a child of the current actor: the child is told
    /// when the current actor dies, but not the other way round.
    fn spawn_child(self) -> Self::Ref;
}

} // verus!
