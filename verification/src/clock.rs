//! Points in time as the ingestor reads and compares them.
use vstd::prelude::*;

verus! {

/// Nanoseconds in a second.
pub const NANOS_PER_SEC: i64 = 1_000_000_000;

/// A point in time: whole seconds since the Unix epoch in UTC, and the
/// nanoseconds into that second.
#[derive(Clone, Copy, Debug, PartialEq, Eq, Structural)]
pub struct Timestamp {
    pub secs: i64,
    pub nanos: u32,
}

impl Timestamp {
    /// Nanoseconds since the Unix epoch.
    pub open spec fn as_nanos(self) -> int {
        self.secs * NANOS_PER_SEC + self.nanos
    }

    /// Whether `self` is no earlier than `other`.
    pub open spec fn is_at_or_after(self, other: Timestamp) -> bool {
        self.as_nanos() >= other.as_nanos()
    }

    /// Whether at least `secs` seconds have passed at `self` since `earlier`.
    pub open spec fn spec_reached(self, earlier: Timestamp, secs: i64) -> bool {
        self.as_nanos() - earlier.as_nanos() >= secs * NANOS_PER_SEC
    }

    /// Whether at least `secs` seconds have passed at `self` since `earlier`.
    /// A time before `earlier` counts as a negative age.
    #[verifier::when_used_as_spec(spec_reached)]
    pub fn reached(self, earlier: Timestamp, secs: i64) -> (reached: bool)
        ensures
            reached == self.spec_reached(earlier, secs),
    {
        let whole: i128 = (self.secs as i128 - earlier.secs as i128) * 1_000_000_000;
        let passed: i128 = whole + (self.nanos as i128 - earlier.nanos as i128);
        passed >= (secs as i128) * 1_000_000_000
    }
}

/// `chrono::Utc::now`, read through `DateTime::timestamp` and
/// `DateTime::timestamp_subsec_nanos`: the system clock at the moment of the
/// call. Nothing is claimed of the reading: the clock may be set back between
/// two calls. (`Utc::now` panics where the clock reads before 1970.)
#[verifier::external_body]
pub(crate) fn utc_now() -> (now: Timestamp) {
    let now = chrono::Utc::now();
    Timestamp { secs: now.timestamp(), nanos: now.timestamp_subsec_nanos() }
}

/// Whether a text ends with the offset of UTC, written `+00:00`.
pub open spec fn has_utc_offset(text: Seq<char>) -> bool {
    text.len() >= 6 && text.subrange(text.len() - 6, text.len() as int) == "+00:00"@
}

/// `chrono::Utc::now` written by `DateTime::to_rfc3339`: the system clock at
/// the moment of the call as text, date and time with sub-second digits
/// where there are any, and the fixed offset `+00:00` at the end. Only the
/// offset is claimed: the rest depends on the clock.
#[verifier::external_body]
pub(crate) fn utc_now_rfc3339() -> (text: String)
    ensures
        has_utc_offset(text@),
{
    chrono::Utc::now().to_rfc3339()
}

} // verus!
