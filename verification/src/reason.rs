use crate::err::PanicErr;
use crate::text::{append_decimal, decimal};
use vstd::prelude::*;

verus! {

/// Reason for an actor being stopped.
pub enum ActorStopReason {
    /// Actor stopped normally.
    Normal,
    /// Actor was killed.
    Killed,
    /// Actor panicked.
    Panicked(PanicErr),
    /// Link died.
    LinkDied {
        /// Actor ID.
        id: u64,
        /// Actor died reason.
        reason: Box<ActorStopReason>,
    },
}

/// The human-readable text of a stop reason.
pub open spec fn reason_text(r: ActorStopReason) -> Seq<char>
    decreases r,
{
    match r {
        ActorStopReason::Normal => "actor stopped normally"@,
        ActorStopReason::Killed => "actor was killed"@,
        ActorStopReason::Panicked(_) => "actor panicked"@,
        ActorStopReason::LinkDied { id, reason } => "link "@ + decimal(id as nat)
            + " died with reason: "@ + reason_text(*reason),
    }
}

/// The debugging text of a stop reason: the variant's name, with the fields of
/// `LinkDied` written out.
pub open spec fn reason_debug_text(r: ActorStopReason) -> Seq<char>
    decreases r,
{
    match r {
        ActorStopReason::Normal => "Normal"@,
        ActorStopReason::Killed => "Killed"@,
        ActorStopReason::Panicked(_) => "Panicked"@,
        ActorStopReason::LinkDied { id, reason } => "LinkDied { id: "@ + decimal(id as nat)
            + ", reason: "@ + reason_debug_text(*reason) + " }"@,
    }
}

impl ActorStopReason {
    /// A copy of this reason; a panic payload is shared, not copied.
    pub fn duplicate(&self) -> (r: Self)
        ensures
            r == *self,
        decreases self,
    {
        match self {
            ActorStopReason::Normal => ActorStopReason::Normal,
            ActorStopReason::Killed => ActorStopReason::Killed,
            ActorStopReason::Panicked(err) => ActorStopReason::Panicked(err.clone()),
            ActorStopReason::LinkDied { id, reason } => ActorStopReason::LinkDied {
                id: *id,
                reason: Box::new(reason.duplicate()),
            },
        }
    }

    /// The human-readable text of this reason.
    pub fn describe(&self) -> (s: String)
        ensures
            s@ == reason_text(*self),
        decreases self,
    {
        match self {
            ActorStopReason::Normal => String::from_str("actor stopped normally"),
            ActorStopReason::Killed => String::from_str("actor was killed"),
            ActorStopReason::Panicked(_) => String::from_str("actor panicked"),
            ActorStopReason::LinkDied { id, reason } => {
                let mut s = String::from_str("link ");
                append_decimal(&mut s, *id);
                s.append(" died with reason: ");
                let inner = reason.describe();
                s.append(inner.as_str());
                s
            },
        }
    }

    /// The debugging text of this reason.
    pub fn debug_string(&self) -> (s: String)
        ensures
            s@ == reason_debug_text(*self),
        decreases self,
    {
        match self {
            ActorStopReason::Normal => String::from_str("Normal"),
            ActorStopReason::Killed => String::from_str("Killed"),
            ActorStopReason::Panicked(_) => String::from_str("Panicked"),
            ActorStopReason::LinkDied { id, reason } => {
                let mut s = String::from_str("LinkDied { id: ");
                append_decimal(&mut s, *id);
                s.append(", reason: ");
                let inner = reason.debug_string();
                s.append(inner.as_str());
                s.append(" }");
                s
            },
        }
    }
}

impl Clone for ActorStopReason {
    fn clone(&self) -> (r: Self)
        ensures
            r == *self,
    {
        self.duplicate()
    }
}

} // verus!
