//! The hook that runs when an actor's `on_stop` fails.
use crate::text::{append_decimal, decimal};
use vstd::prelude::*;

verus! {

/// The line that the default stop error hook logs for actor `id`.
pub fn default_on_stop_error_message(id: u64) -> (s: String)
    ensures
        s@ == "actor #"@ + decimal(id as nat) + " on_stop hook errored"@,
{
    let mut s = String::from_str("actor #");
    append_decimal(&mut s, id);
    s.append(" on_stop hook errored");
    s
}

} // verus!
