//! The default behaviour of an actor's hooks.
use crate::err::{LockError, PanicErr};
use crate::reason::{reason_text, ActorStopReason};
use crate::text::{append_decimal, decimal};
use vstd::prelude::*;

verus! {

/// How loud a log line is.
#[derive(Clone, Copy, PartialEq, Eq, Debug, Structural)]
pub enum LogLevel {
    Debug,
    Warn,
    Error,
}

/// What can be read of a panic payload that is not a string, as the runtime
/// found it when it looked inside.
pub enum ErasedView<'a> {
    /// The payload is an error returned by a hook; this is its text.
    Error(&'a str),
    /// The payload is some other value.
    Other,
}

/// "actor NAME (ID)".
pub open spec fn actor_label(name: Seq<char>, id: u64) -> Seq<char> {
    "actor "@ + name + " ("@ + decimal(id as nat) + ")"@
}

/// What `on_link_died` does by default: a link that stopped normally is
/// ignored; any other death stops this actor with the same reason.
pub open spec fn link_died_default(reason: ActorStopReason) -> Option<ActorStopReason> {
    match reason {
        ActorStopReason::Normal => None,
        _ => Some(reason),
    }
}

/// The log line that `on_stop` writes by default, if any. `read` is what was
/// read of a panic payload: `None` where its lock was poisoned, else its text
/// where it is a string.
pub open spec fn stop_log(
    name: Seq<char>,
    id: u64,
    reason: ActorStopReason,
    read: Option<Option<Seq<char>>>,
    erased: ErasedView,
) -> Option<(LogLevel, Seq<char>)> {
    let label = actor_label(name, id);
    match reason {
        ActorStopReason::Normal => Some((LogLevel::Debug, label + " stopped normally"@)),
        ActorStopReason::Killed => Some((LogLevel::Debug, label + " was killed"@)),
        ActorStopReason::Panicked(_) => match read {
            None => Some((LogLevel::Error, label + " panicked"@)),
            Some(Some(t)) => Some((LogLevel::Error, label + " panicked: "@ + t)),
            Some(None) => match erased {
                ErasedView::Error(e) => Some((LogLevel::Error, label + " panicked: "@ + e@)),
                ErasedView::Other => None,
            },
        },
        ActorStopReason::LinkDied { id: link_id, reason: inner } => Some((
            LogLevel::Warn,
            label + " was killed due to link ("@ + decimal(link_id as nat) + ") died with reason: "@
                + reason_text(*inner),
        )),
    }
}

/// The text of the payload that a stop reason carries, where it is a string.
pub open spec fn reason_panic_text(reason: ActorStopReason) -> Option<Seq<char>> {
    match reason {
        ActorStopReason::Panicked(err) => err.text(),
        _ => None,
    }
}

/// What a read of a panic payload's text gave, as a value of the model.
pub open spec fn read_view(read: Result<Option<String>, LockError>) -> Option<Option<Seq<char>>> {
    match read {
        Err(_) => None,
        Ok(None) => Some(None),
        Ok(Some(t)) => Some(Some(t@)),
    }
}

/// A log line as returned, against a log line of the model.
pub open spec fn log_matches(r: Option<(LogLevel, String)>, m: Option<(LogLevel, Seq<char>)>) -> bool {
    match (r, m) {
        (Some((level, line)), Some((l, t))) => level == l && line@ == t,
        (None, None) => true,
        _ => false,
    }
}

/// What `on_link_died` returns by default for a link that died for `reason`.
pub fn default_on_link_died(id: u64, reason: ActorStopReason) -> (r: Option<ActorStopReason>)
    ensures
        r == link_died_default(reason),
{
    match reason {
        ActorStopReason::Normal => None,
        _ => Some(reason),
    }
}

/// What `on_panic` returns by default: stop, with the panic as the reason.
pub fn default_on_panic(err: PanicErr) -> (r: Option<ActorStopReason>)
    ensures
        r == Some(ActorStopReason::Panicked(err)),
{
    Some(ActorStopReason::Panicked(err))
}

fn actor_label_string(name: &str, id: u64) -> (s: String)
    ensures
        s@ == actor_label(name@, id),
{
    let mut s = String::from_str("actor ");
    s.append(name);
    s.append(" (");
    append_decimal(&mut s, id);
    s.append(")");
    s
}

/// The debug line that `on_start` writes by default.
pub fn start_log_line(name: &str, id: u64) -> (s: String)
    ensures
        s@ == "starting "@ + actor_label(name@, id),
{
    let label = actor_label_string(name, id);
    let mut s = String::from_str("starting ");
    s.append(label.as_str());
    s
}

/// The log line that `on_stop` writes by default for `reason`, given what was
/// read of its panic payload (`read`: the text of a string payload, or the
/// poisoned lock) and, for a payload that is not a string, what the runtime
/// found in it (`erased`).
pub fn stop_log_from(
    name: &str,
    id: u64,
    reason: &ActorStopReason,
    read: Result<Option<String>, LockError>,
    erased: ErasedView,
) -> (r: Option<(LogLevel, String)>)
    ensures
        log_matches(r, stop_log(name@, id, *reason, read_view(read), erased)),
{
    let mut s = actor_label_string(name, id);
    match reason {
        ActorStopReason::Normal => {
            s.append(" stopped normally");
            Some((LogLevel::Debug, s))
        },
        ActorStopReason::Killed => {
            s.append(" was killed");
            Some((LogLevel::Debug, s))
        },
        ActorStopReason::Panicked(_) => match read {
            Err(_) => {
                s.append(" panicked");
                Some((LogLevel::Error, s))
            },
            Ok(Some(t)) => {
                s.append(" panicked: ");
                s.append(t.as_str());
                Some((LogLevel::Error, s))
            },
            Ok(None) => match erased {
                ErasedView::Error(e) => {
                    s.append(" panicked: ");
                    s.append(e);
                    Some((LogLevel::Error, s))
                },
                ErasedView::Other => None,
            },
        },
        ActorStopReason::LinkDied { id: link_id, reason: inner } => {
            s.append(" was killed due to link (");
            append_decimal(&mut s, *link_id);
            s.append(") died with reason: ");
            let t = inner.describe();
            s.append(t.as_str());
            Some((LogLevel::Warn, s))
        },
    }
}

/// The log line that `on_stop` writes by default for `reason`, if any: reads
/// the text of a panic payload through its lock. Where that lock was poisoned
/// the line says only that the actor panicked; whether it was is not known
/// here, so either line may come back.
/// `erased` is what the runtime read of a payload that is not a string.
pub fn stop_log_line(name: &str, id: u64, reason: &ActorStopReason, erased: ErasedView) -> (r: Option<(LogLevel, String)>)
    ensures
        log_matches(r, stop_log(name@, id, *reason, Some(reason_panic_text(*reason)), erased))
            || log_matches(r, stop_log(name@, id, *reason, None, erased)),
{
    let read = match reason {
        ActorStopReason::Panicked(err) => err.with_str(|t: &str| -> (w: String)
            ensures
                w@ == t@,
            {
                String::from_str(t)
            }),
        _ => Ok(None),
    };
    assert(read is Ok ==> read_view(read) == Some(reason_panic_text(*reason)));
    stop_log_from(name, id, reason, read, erased)
}

} // verus!
