//! Time windows: whether what was recorded at one time still counts at another.

use vstd::prelude::*;

verus! {

/// What happened at `t` still counts at `ts`: not later, and at most `window` seconds earlier.
pub open spec fn within(t: u64, ts: u64, window: u64) -> bool {
    t <= ts && ts - t <= window
}

/// The recorded time, if there is one and it still counts at `ts`.
pub open spec fn fresh(recorded: Option<u64>, ts: u64, window: u64) -> Option<u64> {
    match recorded {
        Some(t) => if within(t, ts, window) {
            Some(t)
        } else {
            None
        },
        None => None,
    }
}

/// Decides whether what happened at `t` still counts at `ts`.
pub fn is_within(t: u64, ts: u64, window: u64) -> (r: bool)
    ensures
        r == within(t, ts, window),
{
    t <= ts && ts - t <= window
}

/// Keeps a recorded time that still counts at `ts`.
pub fn keep_fresh(recorded: Option<u64>, ts: u64, window: u64) -> (r: Option<u64>)
    ensures
        r == fresh(recorded, ts, window),
{
    match recorded {
        Some(t) => if is_within(t, ts, window) {
            Some(t)
        } else {
            None
        },
        None => None,
    }
}

/// The time from a recorded time up to `ts`, with nothing for a recorded time that is later.
pub open spec fn elapsed_since(t: u64, ts: u64) -> nat {
    if t <= ts {
        (ts - t) as nat
    } else {
        0
    }
}

/// A wider window keeps everything that a narrower one keeps.
pub proof fn law_wider_window_keeps(t: u64, ts: u64, narrow: u64, wide: u64)
    requires
        narrow <= wide,
        within(t, ts, narrow),
    ensures
        within(t, ts, wide),
{
}

/// Once a recorded time has dropped out of the window it stays out at every later time.
pub proof fn law_expiry_is_final(t: u64, ts: u64, later: u64, window: u64)
    requires
        t <= ts <= later,
        !within(t, ts, window),
    ensures
        !within(t, later, window),
{
}

} // verus!
