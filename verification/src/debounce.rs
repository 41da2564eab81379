//! The debounce model for the enforcement worker.
//!
//! A device unplug can fire several property changes in quick succession.
//! The worker therefore coalesces a burst: the first event opens a window,
//! events arriving while the window is open are absorbed into it, and one
//! enforcement pass runs when the window has been open for
//! [`DEBOUNCE_MS`] milliseconds.

use vstd::prelude::*;

use crate::controller::elapsed_ms;

verus! {

/// How long after the first event of a burst further events are coalesced
/// before the single corrective pass runs, in milliseconds.
pub const DEBOUNCE_MS: u64 = 180;

/// The window state after one event arrives at `now`: a first event opens
/// a window, any later event is absorbed into the open one.
pub open spec fn absorb(pending: Option<u64>, now: u64) -> Option<u64> {
    match pending {
        None => Some(now),
        Some(t0) => Some(t0),
    }
}

/// The window state after a whole sequence of events, in arrival order.
pub open spec fn after_burst(pending: Option<u64>, times: Seq<u64>) -> Option<u64>
    decreases times.len(),
{
    if times.len() == 0 {
        pending
    } else {
        after_burst(absorb(pending, times[0]), times.drop_first())
    }
}

/// True when a window is open and has been open for the full debounce
/// span at `now`.
pub open spec fn window_elapsed(pending: Option<u64>, now: u64) -> bool {
    pending matches Some(t0) && elapsed_ms(t0, now) >= DEBOUNCE_MS
}

/// The debounce state: the time the open window started, if one is open.
pub struct Debouncer {
    pending_since: Option<u64>,
}

impl Debouncer {
    /// The open window's start time, if a window is open.
    pub closed spec fn pending(&self) -> Option<u64> {
        self.pending_since
    }

    /// A debouncer with no window open.
    pub fn new() -> (r: Self)
        ensures
            r.pending() is None,
    {
        Debouncer { pending_since: None }
    }

    /// Notes one event: opens a window at `now_ms` if none is open,
    /// otherwise absorbs the event into the open one.
    pub fn note_event(&mut self, now_ms: u64)
        ensures
            final(self).pending() == absorb(old(self).pending(), now_ms),
    {
        match self.pending_since {
            None => {
                self.pending_since = Some(now_ms);
            },
            Some(_) => {},
        }
    }

    /// Whether a window is open.
    pub fn window_open(&self) -> (r: bool)
        ensures
            r == (self.pending() is Some),
    {
        self.pending_since.is_some()
    }

    /// Closes the window and reports that the corrective pass is due, once
    /// the window has been open for the full debounce span; otherwise
    /// changes nothing.
    pub fn take_due(&mut self, now_ms: u64) -> (r: bool)
        ensures
            r == window_elapsed(old(self).pending(), now_ms),
            r ==> final(self).pending() is None,
            !r ==> *final(self) == *old(self),
    {
        match self.pending_since {
            Some(t0) => {
                let elapsed: u64 = if now_ms >= t0 {
                    now_ms - t0
                } else {
                    0
                };
                if elapsed >= DEBOUNCE_MS {
                    self.pending_since = None;
                    true
                } else {
                    false
                }
            },
            None => false,
        }
    }
}

/// An open window absorbs every later event without moving: the burst
/// leaves exactly the window that was already open.
pub proof fn lemma_open_window_absorbs(t0: u64, times: Seq<u64>)
    ensures
        after_burst(Some(t0), times) == Some(t0),
    decreases times.len(),
{
    if times.len() == 0 {
    } else {
        lemma_open_window_absorbs(t0, times.drop_first());
    }
}

/// Debounce coalescing law: a first event at `t0` followed by any number
/// of further events leaves a single window, the one opened at `t0`. The
/// one `take_due` that closes that window therefore yields exactly one
/// corrective pass for the whole burst, not one per event.
pub proof fn lemma_debounce_coalesces(t0: u64, later: Seq<u64>)
    ensures
        after_burst(absorb(None, t0), later) == Some(t0),
{
    lemma_open_window_absorbs(t0, later);
}

} // verus!
