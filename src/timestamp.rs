//! Points in time as the wire format carries them: RFC 3339 text on the
//! wire, seconds and nanoseconds since the Unix epoch in memory.

use vstd::prelude::*;

verus! {

/// Seconds from the epoch to 0000-01-01T00:00:00Z.
pub const MIN_SECS: i64 = -62167219200;

/// Seconds from the epoch to 9999-12-31T23:59:59Z.
pub const MAX_SECS: i64 = 253402300799;

/// An instant in UTC: whole seconds since 1970-01-01T00:00:00Z and the
/// nanoseconds past them. A leap second is held as `nanos` of one second or
/// more within the last second of a minute.
#[derive(Clone, Copy, Debug, PartialEq, Eq, Structural)]
pub struct Timestamp {
    pub secs: i64,
    pub nanos: u32,
}

/// The instant that an RFC 3339 text denotes, as (seconds, nanoseconds)
/// since the epoch in UTC, or `None` where the text is not RFC 3339.
pub uninterp spec fn rfc3339_instant(text: Seq<char>) -> Option<(int, int)>;

/// The RFC 3339 text that is written for an instant, in UTC.
pub uninterp spec fn rfc3339_text(secs: int, nanos: int) -> Seq<char>;

impl Timestamp {
    /// The instant lies in years 0000 to 9999 of UTC, which RFC 3339 can
    /// write, and its nanoseconds reach past one second only in a leap second.
    pub open spec fn wf(self) -> bool {
        MIN_SECS <= self.secs <= MAX_SECS
            && (self.nanos < 1_000_000_000 || (self.nanos < 2_000_000_000 && (self.secs
                - MIN_SECS) % 60 == 59))
    }

    pub fn is_valid(&self) -> (r: bool)
        ensures
            r == self.wf(),
    {
        if self.secs < MIN_SECS || self.secs > MAX_SECS {
            return false;
        }
        if self.nanos < 1_000_000_000 {
            return true;
        }
        let since_min: u64 = (self.secs as i128 - MIN_SECS as i128) as u64;
        self.nanos < 2_000_000_000 && since_min % 60 == 59
    }

    /// The current time, where it lies in the years that RFC 3339 can write.
    pub fn now() -> (r: Option<Timestamp>)
        ensures
            r matches Some(t) ==> t.wf(),
    {
        let t = clock_now();
        if t.is_valid() {
            Some(t)
        } else {
            None
        }
    }
}

/// Relies on chrono's `DateTime::parse_from_rfc3339`, read back in UTC
/// through `timestamp` and `timestamp_subsec_nanos`.
#[verifier::external_body]
pub(crate) fn parse_rfc3339(text: &str) -> (r: Option<Timestamp>)
    ensures
        match r {
            Some(t) => rfc3339_instant(text@) == Some((t.secs as int, t.nanos as int)),
            None => rfc3339_instant(text@) is None,
        },
{
    match chrono::DateTime::parse_from_rfc3339(text) {
        Ok(d) => Some(Timestamp { secs: d.timestamp(), nanos: d.timestamp_subsec_nanos() }),
        Err(_) => None,
    }
}

/// Relies on chrono's `DateTime::<Utc>::from_timestamp`, which accepts every
/// well-formed instant, and on `to_rfc3339`, whose text for a year of four
/// digits `parse_from_rfc3339` reads back as the same instant.
#[verifier::external_body]
pub(crate) fn format_rfc3339(t: Timestamp) -> (r: String)
    requires
        t.wf(),
    ensures
        r@ == rfc3339_text(t.secs as int, t.nanos as int),
        rfc3339_instant(r@) == Some((t.secs as int, t.nanos as int)),
{
    chrono::DateTime::<chrono::Utc>::from_timestamp(t.secs, t.nanos).unwrap().to_rfc3339()
}

/// Relies on chrono's `From<SystemTime> for DateTime<Utc>`, which also takes
/// clocks set before 1970, applied to `SystemTime::now`; nothing is known of
/// the time it reads.
#[verifier::external_body]
fn clock_now() -> (r: Timestamp) {
    let d = chrono::DateTime::<chrono::Utc>::from(std::time::SystemTime::now());
    Timestamp { secs: d.timestamp(), nanos: d.timestamp_subsec_nanos() }
}

} // verus!
