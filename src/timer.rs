//! Session time window: a session ends at minute 50 of the hour it started
//! in, warns five minutes before, and resets at minute 59. Local times are
//! whole seconds since the Unix epoch together with their minute and second
//! on the local clock.

use vstd::prelude::*;

verus! {

/// Bound on the seconds handled, far beyond any calendar date.
pub const LIMIT: i64 = 0x2000_0000_0000_0000;

/// A local wall-clock instant.
#[derive(Clone, Copy, Debug, PartialEq, Eq, Structural)]
pub struct LocalInstant {
    /// Whole seconds since the Unix epoch.
    pub unix_seconds: i64,
    /// Minute of the hour on the local clock, below 60.
    pub minute: u32,
    /// Second of the minute, below 60.
    pub second: u32,
}

impl LocalInstant {
    pub open spec fn wf(&self) -> bool {
        &&& self.minute < 60
        &&& self.second < 60
    }

    /// Within the range any calendar date can take, with room to spare.
    pub open spec fn in_range(&self) -> bool {
        -LIMIT <= self.unix_seconds <= LIMIT
    }

    /// Seconds since the epoch of the start of this instant's hour.
    pub open spec fn hour_start(&self) -> int {
        self.unix_seconds - self.minute * 60 - self.second
    }
}

/// The three boundaries of a session.
#[derive(Clone, Copy, Debug, PartialEq, Eq, Structural)]
pub struct SessionWindow {
    pub end: LocalInstant,
    pub t_minus_5_at: LocalInstant,
    pub reset_at: LocalInstant,
}

fn at_minute(start: LocalInstant, minute: u32) -> (r: LocalInstant)
    requires
        start.wf(),
        start.in_range(),
        minute < 60,
    ensures
        r.wf(),
        r.minute == minute,
        r.second == 0,
        r.unix_seconds == start.hour_start() + minute * 60,
{
    let hour_start = start.unix_seconds - (start.minute as i64) * 60 - (start.second as i64);
    LocalInstant { unix_seconds: hour_start + (minute as i64) * 60, minute, second: 0 }
}

/// The window of a session started at `start`: end at minute 50 of the
/// same hour, warning five minutes before the end, reset at minute 59.
pub fn compute_session_window(start: LocalInstant) -> (r: SessionWindow)
    requires
        start.wf(),
        start.in_range(),
    ensures
        r.end.wf() && r.t_minus_5_at.wf() && r.reset_at.wf(),
        r.end == (LocalInstant { unix_seconds: (start.hour_start() + 3000) as i64, minute: 50, second: 0 }),
        r.t_minus_5_at == (LocalInstant { unix_seconds: (start.hour_start() + 2700) as i64, minute: 45, second: 0 }),
        r.reset_at == (LocalInstant { unix_seconds: (start.hour_start() + 3540) as i64, minute: 59, second: 0 }),
{
    SessionWindow { end: at_minute(start, 50), t_minus_5_at: at_minute(start, 45), reset_at: at_minute(start, 59) }
}

pub open spec fn remaining(now: LocalInstant, end: LocalInstant) -> int {
    if end.unix_seconds - now.unix_seconds > 0 { end.unix_seconds - now.unix_seconds } else { 0 }
}

/// Whole seconds from `now` until `end`, never negative.
pub fn remaining_seconds(now: LocalInstant, end: LocalInstant) -> (r: i64)
    requires
        now.in_range(),
        end.in_range(),
    ensures
        r == remaining(now, end),
{
    if end.unix_seconds > now.unix_seconds {
        end.unix_seconds - now.unix_seconds
    } else {
        0
    }
}

/// The five-minute warning is due from its time until the end, exclusive.
pub fn should_emit_t_minus_5(now: LocalInstant, window: &SessionWindow) -> (r: bool)
    requires
        now.in_range(),
        window.end.in_range(),
    ensures
        r == (remaining(now, window.end) > 0 && now.unix_seconds >= window.t_minus_5_at.unix_seconds),
{
    remaining_seconds(now, window.end) > 0 && now.unix_seconds >= window.t_minus_5_at.unix_seconds
}

} // verus!
