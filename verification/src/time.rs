//! UTC date-times as a count of seconds and nanoseconds since the UNIX epoch,
//! and the calls into `chrono`.

use vstd::prelude::*;

verus! {

/// The earliest timestamp (in seconds) that `chrono` represents: -262143-01-01T00:00:00Z.
pub const MIN_UTC_TIMESTAMP: i64 = -8_334_601_228_800;

/// The latest timestamp (in seconds) that `chrono` represents: 262142-12-31T23:59:59Z.
pub const MAX_UTC_TIMESTAMP: i64 = 8_210_266_876_799;

/// Whether `chrono::DateTime::from_timestamp(secs, nsecs)` yields a date-time:
/// the date lies in chrono's range, and the nanoseconds stay below two
/// seconds, reaching one second or more (a leap second) only in the last
/// second of a minute.
pub open spec fn timestamp_in_range(secs: i64, nsecs: u32) -> bool {
    &&& MIN_UTC_TIMESTAMP <= secs <= MAX_UTC_TIMESTAMP
    &&& nsecs < 2_000_000_000
    &&& nsecs >= 1_000_000_000 ==> secs % 60 == 59
}

/// A date-time in UTC: seconds since 1970-01-01T00:00:00Z, and the
/// nanoseconds within that second (1_000_000_000 or more during a leap second).
#[derive(Debug, Clone, Copy, PartialEq, Eq, Hash)]
pub struct UtcDateTime {
    pub(crate) secs: i64,
    pub(crate) nanos: u32,
}

impl UtcDateTime {
    #[verifier::type_invariant]
    spec fn in_range(self) -> bool {
        timestamp_in_range(self.secs, self.nanos)
    }

    /// Seconds since the UNIX epoch.
    pub closed spec fn seconds(self) -> i64 {
        self.secs
    }

    /// Nanoseconds within the second.
    pub closed spec fn subsec_nanos(self) -> u32 {
        self.nanos
    }

    /// The date-time with the given parts.
    pub closed spec fn from_parts(secs: i64, nsecs: u32) -> UtcDateTime {
        UtcDateTime { secs, nanos: nsecs }
    }

    /// The date-time `secs` seconds and `nsecs` nanoseconds after the UNIX
    /// epoch, or `None` when chrono does not represent it.
    pub open spec fn spec_from_timestamp(secs: i64, nsecs: u32) -> Option<UtcDateTime> {
        if timestamp_in_range(secs, nsecs) {
            Some(UtcDateTime::from_parts(secs, nsecs))
        } else {
            None
        }
    }

    /// The parts of a date-time built from parts are those parts.
    pub broadcast proof fn lemma_from_parts(secs: i64, nsecs: u32)
        ensures
            #[trigger] UtcDateTime::from_parts(secs, nsecs).seconds() == secs,
            UtcDateTime::from_parts(secs, nsecs).subsec_nanos() == nsecs,
    {
    }

    /// A date-time is determined by its parts.
    pub broadcast proof fn lemma_parts_determine(d: UtcDateTime)
        ensures
            #[trigger] UtcDateTime::from_parts(d.seconds(), d.subsec_nanos()) == d,
    {
    }

    /// Makes a date-time from seconds and nanoseconds since the UNIX epoch.
    pub fn from_timestamp(secs: i64, nsecs: u32) -> (r: Option<UtcDateTime>)
        ensures
            r == UtcDateTime::spec_from_timestamp(secs, nsecs),
    {
        chrono_from_timestamp(secs, nsecs)
    }

    /// Seconds since the UNIX epoch.
    pub fn timestamp(&self) -> (r: i64)
        ensures
            r == self.seconds(),
            timestamp_in_range(self.seconds(), self.subsec_nanos()),
    {
        proof {
            use_type_invariant(self);
        }
        self.secs
    }

    /// Nanoseconds within the second.
    pub fn timestamp_subsec_nanos(&self) -> (r: u32)
        ensures
            r == self.subsec_nanos(),
            timestamp_in_range(self.seconds(), self.subsec_nanos()),
    {
        proof {
            use_type_invariant(self);
        }
        self.nanos
    }
}

pub broadcast group group_utc_date_time {
    UtcDateTime::lemma_from_parts,
    UtcDateTime::lemma_parts_determine,
}

/// Trusted: calls `chrono::DateTime::<Utc>::from_timestamp`. In chrono's
/// source it fails exactly when the day falls outside chrono's date range or
/// the nanoseconds are not valid for that second (see `timestamp_in_range`),
/// and its documentation guarantees that `timestamp` and
/// `timestamp_subsec_nanos` give the arguments back.
#[verifier::external_body]
fn chrono_from_timestamp(secs: i64, nsecs: u32) -> (r: Option<UtcDateTime>)
    ensures
        r == UtcDateTime::spec_from_timestamp(secs, nsecs),
{
    match chrono::DateTime::from_timestamp(secs, nsecs) {
        Some(dt) => Some(UtcDateTime { secs: dt.timestamp(), nanos: dt.timestamp_subsec_nanos() }),
        None => None,
    }
}

/// What parsing a text as `chrono::DateTime<Utc>` (RFC 3339, relaxed) gives:
/// the date-time, or `None` when the text is not accepted.
pub uninterp spec fn datetime_text_parsed(s: Seq<char>) -> Option<UtcDateTime>;

/// Parses a date-time text.
///
/// Trusted: calls `<chrono::DateTime<Utc> as FromStr>::from_str`; the contract
/// only names its result (`datetime_text_parsed`), which depends on the text
/// alone.
#[verifier::external_body]
pub(crate) fn parse_datetime(s: &str) -> (r: Option<UtcDateTime>)
    ensures
        r == datetime_text_parsed(s@),
{
    match s.parse::<chrono::DateTime<chrono::Utc>>() {
        Ok(dt) => Some(UtcDateTime { secs: dt.timestamp(), nanos: dt.timestamp_subsec_nanos() }),
        Err(_) => None,
    }
}

} // verus!
