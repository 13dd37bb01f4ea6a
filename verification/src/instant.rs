//! Instants on the UTC time line, counted in nanoseconds since the Unix epoch.

use vstd::prelude::*;

verus! {

/// The first instant of the year -9999, the earliest the calendar can name.
pub const MIN_UNIX_NANOS: i128 = -377_705_116_800_000_000_000;

/// The last nanosecond of the year 9999, the latest the calendar can name.
pub const MAX_UNIX_NANOS: i128 = 253_402_300_799_999_999_999;

/// How long a snapshot stays fresh: five minutes.
pub const TTL_NANOS: i128 = 300_000_000_000;

/// A point in time, always inside the range the calendar can name.
#[derive(Clone, Copy, Debug, PartialEq, Eq, Structural)]
pub struct Timestamp {
    nanos: i128,
}

impl View for Timestamp {
    type V = int;

    closed spec fn view(&self) -> int {
        self.nanos as int
    }
}

/// Whether `nanos` lies inside the range the calendar can name.
pub open spec fn in_calendar_range(nanos: int) -> bool {
    MIN_UNIX_NANOS <= nanos <= MAX_UNIX_NANOS
}

/// How `time::OffsetDateTime` prints the instant `nanos` nanoseconds after
/// the epoch, at offset zero.
pub uninterp spec fn calendar_text(nanos: int) -> Seq<char>;

/// Builds the instant with `time::OffsetDateTime::from_unix_timestamp_nanos`
/// and prints it through the type's `Display`. Inside the range demanded
/// the constructor succeeds; the print is fixed by the instant alone (date,
/// time of day, offset zero), and the contract only names it.
#[verifier::external_body]
fn format_unix_nanos(nanos: i128) -> (text: String)
    requires
        in_calendar_range(nanos as int),
    ensures
        text@ == calendar_text(nanos as int),
{
    match time::OffsetDateTime::from_unix_timestamp_nanos(nanos) {
        Ok(instant) => instant.to_string(),
        Err(_) => String::new(),
    }
}

impl Timestamp {
    #[verifier::type_invariant]
    spec fn calendar(self) -> bool {
        in_calendar_range(self.nanos as int)
    }

    /// The Unix epoch, which also marks a cache that was never refreshed.
    pub fn epoch() -> (t: Timestamp)
        ensures
            t@ == 0,
    {
        Timestamp { nanos: 0 }
    }

    /// The instant `nanos` nanoseconds after the epoch, if the calendar can name it.
    pub fn from_unix_nanos(nanos: i128) -> (t: Option<Timestamp>)
        ensures
            in_calendar_range(nanos as int) <==> t is Some,
            t is Some ==> t->0@ == nanos,
    {
        if MIN_UNIX_NANOS <= nanos && nanos <= MAX_UNIX_NANOS {
            Some(Timestamp { nanos })
        } else {
            None
        }
    }

    /// Nanoseconds since the epoch.
    pub fn unix_nanos(&self) -> (n: i128)
        ensures
            n == self@,
            in_calendar_range(n as int),
    {
        proof {
            use_type_invariant(self);
        }
        self.nanos
    }

    /// The instant as the calendar prints it: date, time of day and offset.
    pub fn to_text(&self) -> (text: String)
        ensures
            text@ == calendar_text(self@),
    {
        format_unix_nanos(self.unix_nanos())
    }
}

} // verus!
