//! The auto-refresh schedule and generated session names.

use vstd::prelude::*;
use chrono::Timelike;
use crate::text::push_char;

verus! {

/// Time between automatic refreshes, in milliseconds.
pub const REFRESH_INTERVAL_MS: u64 = 2000;

/// When the last refresh completed, and how often to refresh.
#[derive(Debug, Clone, Copy)]
pub struct RefreshTimer {
    pub last_refresh: u64,
    pub interval: u64,
}

/// The time of the next automatic refresh, capped at `u64::MAX`.
pub open spec fn deadline(t: RefreshTimer) -> int {
    if t.last_refresh + t.interval > u64::MAX {
        u64::MAX as int
    } else {
        t.last_refresh + t.interval
    }
}

impl RefreshTimer {
    /// A schedule counted from a refresh at `now`.
    pub fn new(now: u64) -> (r: RefreshTimer)
        ensures
            r.last_refresh == now,
            r.interval == REFRESH_INTERVAL_MS,
    {
        RefreshTimer { last_refresh: now, interval: REFRESH_INTERVAL_MS }
    }

    /// Whether an automatic refresh is due at `now`.
    pub fn is_due(&self, now: u64) -> (r: bool)
        ensures
            r == (now >= deadline(*self)),
    {
        now >= self.last_refresh.saturating_add(self.interval)
    }

    /// How long input polling may block at `now`: the time left until the
    /// next refresh, 0 when it is due.
    pub fn poll_timeout(&self, now: u64) -> (r: u64)
        ensures
            r == (if now >= deadline(*self) {
                0
            } else {
                deadline(*self) - now
            }),
    {
        let due = self.last_refresh.saturating_add(self.interval);
        if now >= due {
            0
        } else {
            due - now
        }
    }

    /// Restarts the schedule from a refresh completed at `now`; a manual
    /// refresh does the same.
    pub fn mark_refreshed(&mut self, now: u64)
        ensures
            final(self).last_refresh == now,
            final(self).interval == old(self).interval,
    {
        self.last_refresh = now;
    }
}

/// Relies on `chrono::Local::now` with `Timelike::hour`, `minute` and
/// `second`: the local time of day, hour below 24, minute and second below 60.
#[verifier::external_body]
fn local_time_of_day() -> (r: (u32, u32, u32))
    ensures
        r.0 < 24,
        r.1 < 60,
        r.2 < 60,
{
    let now = chrono::Local::now();
    (now.hour(), now.minute(), now.second())
}

/// The two decimal digits of `n`.
pub open spec fn two_digits(n: u32) -> Seq<char> {
    seq![('0' as u32 + n / 10) as char, ('0' as u32 + n % 10) as char]
}

/// The name `session-HHMMSS` for a time of day.
pub open spec fn session_name_spec(h: u32, m: u32, s: u32) -> Seq<char> {
    "session-"@ + two_digits(h) + two_digits(m) + two_digits(s)
}

fn digit_char(d: u32) -> (c: char)
    requires
        d < 10,
    ensures
        c == ('0' as u32 + d) as char,
{
    if d == 0 {
        '0'
    } else if d == 1 {
        '1'
    } else if d == 2 {
        '2'
    } else if d == 3 {
        '3'
    } else if d == 4 {
        '4'
    } else if d == 5 {
        '5'
    } else if d == 6 {
        '6'
    } else if d == 7 {
        '7'
    } else if d == 8 {
        '8'
    } else {
        '9'
    }
}

fn push_two_digits(s: &mut String, n: u32)
    requires
        n < 100,
    ensures
        final(s)@ == old(s)@ + two_digits(n),
{
    push_char(s, digit_char(n / 10));
    push_char(s, digit_char(n % 10));
    assert(final(s)@ =~= old(s)@ + two_digits(n));
}

/// The session name `session-HHMMSS` for the given time of day.
pub fn session_name_at(h: u32, m: u32, s: u32) -> (r: String)
    requires
        h < 100,
        m < 100,
        s < 100,
    ensures
        r@ == session_name_spec(h, m, s),
{
    let mut r = String::from_str("session-");
    push_two_digits(&mut r, h);
    push_two_digits(&mut r, m);
    push_two_digits(&mut r, s);
    r
}

/// A name for a session created without one, from the local time of day.
pub fn generated_session_name() -> (r: String)
    ensures
        exists|h: u32, m: u32, s: u32| h < 24 && m < 60 && s < 60 && r@ == session_name_spec(h, m, s),
{
    let (h, m, s) = local_time_of_day();
    session_name_at(h, m, s)
}

} // verus!
