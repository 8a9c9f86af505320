//! The timer stream's events.
//!
//! The stream itself is one push per second over a live connection; what
//! each push carries is pure: the event label "timer" and, as the payload,
//! the whole seconds elapsed since the stream was opened, in decimal.

use vstd::prelude::*;

use crate::decimal::{dec_rep, u64_to_decimal};

verus! {

/// How long the connection is kept alive without traffic: about a year,
/// effectively forever next to any realistic client lifetime.
pub const KEEP_ALIVE_SECS: u64 = 365 * 24 * 60 * 60;

/// One push event of the timer stream: a label naming the event type and
/// the payload text a client swaps into the page.
pub struct TimerEvent {
    /// The event type label; always "timer".
    pub label: String,
    /// The payload: elapsed whole seconds, in decimal.
    pub payload: String,
}

/// Builds the event for one tick from the elapsed whole seconds.
pub fn timer_event(elapsed_secs: u64) -> (e: TimerEvent)
    ensures
        e.label@ == "timer"@,
        e.payload@ == dec_rep(elapsed_secs as nat),
{
    TimerEvent { label: "timer".to_owned(), payload: u64_to_decimal(elapsed_secs) }
}

} // verus!
