//! The cooldown: one timestamp that keeps the deep analysis from
//! running more than once in six hours.

use crate::numeral::{decimal_digits, decimal_text, lemma_numeral_round_trip, parse_u64, parsed_u64};
use vstd::prelude::*;

verus! {

/// The quiet interval after a deep analysis, in seconds: six hours.
pub const COOLDOWN_SECONDS: u64 = 21_600;

/// What the cooldown answers to a request.
#[derive(Clone, Copy, Debug, PartialEq, Eq, Structural)]
pub struct CooldownStatus {
    /// Whether the request is refused.
    pub blocked: bool,
    /// How long the cooldown lasts, in seconds; zero when it is over.
    pub remaining_seconds: u64,
}

/// The state of the cooldown: when the deep analysis last ran, in seconds since
/// the Unix epoch, or nothing while it has never run.
#[derive(Clone, Copy, Debug, PartialEq, Eq, Structural)]
pub struct CooldownState {
    pub last_triggered_at: Option<u64>,
}

/// The answer when no cooldown is active.
pub open spec fn open_status() -> CooldownStatus {
    CooldownStatus { blocked: false, remaining_seconds: 0 }
}

/// How long after `now` the interval that began at `last` ends. Negative
/// once the interval is over.
pub open spec fn seconds_left(last: u64, now: u64) -> int {
    COOLDOWN_SECONDS - (now - last)
}

/// The answer of the cooldown at time `now`: open while the analysis has never
/// run and once six hours have passed since it last did; else blocked, with
/// the time that is left of the six hours (capped at what 64 bits hold, for a
/// stamp that far ahead of the clock).
pub open spec fn status_at(state: CooldownState, now: u64) -> CooldownStatus {
    match state.last_triggered_at {
        None => open_status(),
        Some(last) => if seconds_left(last, now) <= 0 {
            open_status()
        } else if seconds_left(last, now) > u64::MAX {
            CooldownStatus { blocked: true, remaining_seconds: u64::MAX }
        } else {
            CooldownStatus { blocked: true, remaining_seconds: seconds_left(last, now) as u64 }
        },
    }
}

/// The state that a stored text stands for: the moment it denotes, or
/// nothing where no text is stored or the stored text is no numeral.
pub open spec fn state_of(stored: Option<Seq<char>>) -> CooldownState {
    match stored {
        Some(text) => CooldownState { last_triggered_at: parsed_u64(text) },
        None => CooldownState { last_triggered_at: None },
    }
}

impl CooldownState {
    /// The cooldown before the first deep analysis.
    pub fn new() -> (r: CooldownState)
        ensures
            r.last_triggered_at is None,
    {
        CooldownState { last_triggered_at: None }
    }

    /// Restores the cooldown from what was stored. A text that is no numeral
    /// leaves the cooldown inactive, as a missing one does.
    pub fn from_stored(stored: Option<&str>) -> (r: CooldownState)
        ensures
            r == state_of(
                match stored {
                    Some(text) => Some(text@),
                    None => None,
                },
            ),
    {
        match stored {
            Some(text) => CooldownState { last_triggered_at: parse_u64(text) },
            None => CooldownState { last_triggered_at: None },
        }
    }

    /// Asks the cooldown at time `now`. The state is not changed.
    pub fn check(&self, now: u64) -> (r: CooldownStatus)
        ensures
            r == status_at(*self, now),
    {
        match self.last_triggered_at {
            None => CooldownStatus { blocked: false, remaining_seconds: 0 },
            Some(last) => {
                if now >= last {
                    let elapsed = now - last;
                    if elapsed >= COOLDOWN_SECONDS {
                        CooldownStatus { blocked: false, remaining_seconds: 0 }
                    } else {
                        CooldownStatus {
                            blocked: true,
                            remaining_seconds: COOLDOWN_SECONDS - elapsed,
                        }
                    }
                } else {
                    let ahead = last - now;
                    let remaining = if ahead > u64::MAX - COOLDOWN_SECONDS {
                        u64::MAX
                    } else {
                        COOLDOWN_SECONDS + ahead
                    };
                    CooldownStatus { blocked: true, remaining_seconds: remaining }
                }
            },
        }
    }

    /// Records that a deep analysis ran at time `now`.
    pub fn stamp(&mut self, now: u64)
        ensures
            final(self).last_triggered_at == Some(now),
    {
        self.last_triggered_at = Some(now);
    }
}

/// The text under which a stamp is stored: the decimal numeral of the moment.
pub fn stamp_text(now: u64) -> (r: String)
    ensures
        r@ == decimal_digits(now as nat),
        state_of(Some(r@)).last_triggered_at == Some(now),
{
    proof {
        lemma_numeral_round_trip(now);
    }
    decimal_text(now)
}

/// Asking the cooldown again, with no stamp in between, gives the same answer
/// at the same time, and at a later time never more seconds to wait; a cooldown
/// found over stays over.
pub proof fn lemma_check_is_stable(state: CooldownState, earlier: u64, later: u64)
    requires
        earlier <= later,
    ensures
        earlier == later ==> status_at(state, later) == status_at(state, earlier),
        status_at(state, later).remaining_seconds <= status_at(state, earlier).remaining_seconds,
        !status_at(state, earlier).blocked ==> !status_at(state, later).blocked,
{
}

/// A stamp starts a cooldown of exactly six hours: from the moment of the
/// stamp on, requests are blocked while fewer than 21 600 seconds have passed,
/// and reports the seconds that are left of them.
pub proof fn lemma_stamp_closes_for_six_hours(stamped: u64, now: u64)
    requires
        stamped <= now,
    ensures
        status_at(CooldownState { last_triggered_at: Some(stamped) }, now).blocked <==> now
            - stamped < COOLDOWN_SECONDS,
        now - stamped < COOLDOWN_SECONDS ==> status_at(
            CooldownState { last_triggered_at: Some(stamped) },
            now,
        ).remaining_seconds == COOLDOWN_SECONDS - (now - stamped),
{
}

/// Requests are blocked exactly when it reports time left to wait.
pub proof fn lemma_blocked_iff_time_left(state: CooldownState, now: u64)
    ensures
        status_at(state, now).blocked <==> status_at(state, now).remaining_seconds > 0,
{
}

} // verus!
