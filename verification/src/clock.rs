//! Points in time, as handed in by whoever reads the clock.

use vstd::prelude::*;

verus! {

/// A reading of the wall clock: the time since the Unix epoch.
#[derive(Clone, Copy, Debug, PartialEq, Eq, Structural)]
pub struct Moment {
    /// Whole seconds since the epoch.
    pub epoch_seconds: u64,
    /// The fraction of the running second, in nanoseconds.
    pub subsec_nanos: u32,
}

/// The RFC 3339 form, in UTC, of the instant that lies `seconds` and `nanos`
/// after the Unix epoch, where the calendar in use can express that instant.
pub uninterp spec fn rfc3339_utc(seconds: int, nanos: int) -> Option<Seq<char>>;

/// Calls `DateTime::from_timestamp` and, on the instant it gives,
/// `DateTime::to_rfc3339`. Trusted: the result is the RFC 3339 text of that
/// instant in UTC, and nothing where the instant is out of range.
#[verifier::external_body]
fn format_rfc3339(seconds: i64, nanos: u32) -> (r: Option<String>)
    ensures
        match r {
            Some(text) => rfc3339_utc(seconds as int, nanos as int) == Some(text@),
            None => rfc3339_utc(seconds as int, nanos as int) is None,
        },
{
    match chrono::DateTime::from_timestamp(seconds, nanos) {
        Some(instant) => Some(instant.to_rfc3339()),
        None => None,
    }
}

impl Moment {
    /// The timestamp under which a turn recorded at this moment is stored.
    pub open spec fn timestamp_text(self) -> Option<Seq<char>> {
        if self.epoch_seconds <= i64::MAX {
            rfc3339_utc(self.epoch_seconds as int, self.subsec_nanos as int)
        } else {
            None
        }
    }

    /// The timestamp under which a turn recorded at this moment is stored:
    /// the moment in RFC 3339 form, or nothing where the moment lies beyond
    /// what the calendar can express.
    pub fn timestamp(&self) -> (r: Option<String>)
        ensures
            match r {
                Some(text) => self.timestamp_text() == Some(text@),
                None => self.timestamp_text() is None,
            },
    {
        if self.epoch_seconds <= i64::MAX as u64 {
            format_rfc3339(self.epoch_seconds as i64, self.subsec_nanos)
        } else {
            None
        }
    }
}

} // verus!
