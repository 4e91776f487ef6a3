//! Instants in UTC, held as plain integers.

use vstd::prelude::*;

verus! {

/// Earliest second that the calendar of `chrono` reaches (1 January of the year -262143).
pub const MIN_SECS: i64 = -8_334_601_228_800;

/// Latest second that the calendar of `chrono` reaches (31 December of the year 262142).
pub const MAX_SECS: i64 = 8_210_266_876_799;

/// Nanoseconds in one second.
pub const NANOS_PER_SEC: u32 = 1_000_000_000;

/// Whether `secs` whole seconds since 1970-01-01 00:00:00 UTC and `nanos`
/// nanoseconds into that second name an instant of the calendar. A leap second
/// is written with `nanos` of a thousand million or more, in the last second of
/// a minute only.
pub open spec fn is_instant(secs: int, nanos: int) -> bool {
    &&& MIN_SECS <= secs <= MAX_SECS
    &&& 0 <= nanos < 2 * NANOS_PER_SEC
    &&& nanos >= NANOS_PER_SEC ==> secs % 60 == 59
}

/// An instant in UTC.
#[derive(Clone, Copy, Debug, PartialEq, Eq, Structural)]
pub struct Timestamp {
    secs: i64,
    nanos: u32,
}

impl Timestamp {
    #[verifier::type_invariant]
    spec fn inv(self) -> bool {
        is_instant(self.secs as int, self.nanos as int)
    }

    /// Whole seconds since the epoch.
    pub closed spec fn spec_secs(self) -> int {
        self.secs as int
    }

    /// Nanoseconds into the second.
    pub closed spec fn spec_nanos(self) -> int {
        self.nanos as int
    }

    /// The instant `secs` seconds and `nanos` nanoseconds after the epoch, if
    /// the calendar has it.
    pub fn new(secs: i64, nanos: u32) -> (r: Option<Timestamp>)
        ensures
            r is Some <==> is_instant(secs as int, nanos as int),
            r matches Some(t) ==> t.spec_secs() == secs && t.spec_nanos() == nanos,
    {
        if secs < MIN_SECS || secs > MAX_SECS || nanos >= 2 * NANOS_PER_SEC {
            return None;
        }
        // MIN_SECS is a whole number of minutes before the epoch.
        let since_min: u64 = (secs - MIN_SECS) as u64;
        if nanos >= NANOS_PER_SEC && since_min % 60 != 59 {
            return None;
        }
        Some(Timestamp { secs, nanos })
    }

    /// The epoch: the first instant of 1970 in UTC.
    pub fn epoch() -> (r: Timestamp)
        ensures
            r.spec_secs() == 0,
            r.spec_nanos() == 0,
    {
        Timestamp { secs: 0, nanos: 0 }
    }

    /// Whole seconds since the epoch.
    pub fn secs(&self) -> (r: i64)
        ensures
            r == self.spec_secs(),
            is_instant(self.spec_secs(), self.spec_nanos()),
    {
        proof {
            use_type_invariant(self);
        }
        self.secs
    }

    /// Nanoseconds into the second.
    pub fn nanos(&self) -> (r: u32)
        ensures
            r == self.spec_nanos(),
            is_instant(self.spec_secs(), self.spec_nanos()),
    {
        proof {
            use_type_invariant(self);
        }
        self.nanos
    }

    /// Nanoseconds since the epoch, as an unbounded integer.
    pub open spec fn spec_total_nanos(self) -> int {
        self.spec_secs() * NANOS_PER_SEC + self.spec_nanos()
    }

    /// Whether this instant is `other` or earlier.
    pub open spec fn spec_at_or_before(self, other: Timestamp) -> bool {
        self.spec_secs() < other.spec_secs() || (self.spec_secs() == other.spec_secs()
            && self.spec_nanos() <= other.spec_nanos())
    }

    /// Whether this instant is `other` or earlier.
    pub fn at_or_before(&self, other: &Timestamp) -> (r: bool)
        ensures
            r == self.spec_at_or_before(*other),
    {
        self.secs < other.secs || (self.secs == other.secs && self.nanos <= other.nanos)
    }

    /// The later of two instants.
    pub open spec fn spec_later(self, other: Timestamp) -> Timestamp {
        if self.spec_at_or_before(other) {
            other
        } else {
            self
        }
    }

    /// The later of two instants.
    pub fn later(self, other: Timestamp) -> (r: Timestamp)
        ensures
            r == self.spec_later(other),
    {
        if self.at_or_before(&other) {
            other
        } else {
            self
        }
    }

    /// The current instant, read from the system clock by `chrono::Utc::now`.
    /// What comes back is an instant of the calendar; nothing else is known of
    /// it. The clock of `chrono` does not answer while the system's time
    /// stands before the epoch.
    #[verifier::external_body]
    pub(crate) fn now() -> (t: Timestamp)
        ensures
            is_instant(t.spec_secs(), t.spec_nanos()),
    {
        let moment = chrono::Utc::now();
        Timestamp { secs: moment.timestamp(), nanos: moment.timestamp_subsec_nanos() }
    }

    /// Nanoseconds since the epoch as `chrono::DateTime::timestamp_nanos_opt`
    /// gives them: the number where 64 bits hold it, `None` where they do not.
    #[verifier::external_body]
    pub(crate) fn nanos_since_epoch(&self) -> (r: Option<i64>)
        ensures
            r == (if i64::MIN <= self.spec_total_nanos() <= i64::MAX {
                Some(self.spec_total_nanos() as i64)
            } else {
                None
            }),
    {
        chrono::DateTime::from_timestamp(self.secs, self.nanos)?.timestamp_nanos_opt()
    }

    /// Writes this instant after a `strftime` pattern, with
    /// `chrono::DateTime::format`. The result is [`formatted_time`]; `None`
    /// stands for a pattern that `chrono` cannot follow. The pattern of
    /// [`date_time_pattern`] holds only the year, month, day, hour, minute and
    /// second, which every instant has.
    #[verifier::external_body]
    pub(crate) fn format(&self, pattern: &str) -> (r: Option<String>)
        ensures
            match r {
                Some(s) => formatted_time(self.spec_secs(), self.spec_nanos(), pattern@) == Some(
                    s@,
                ),
                None => formatted_time(self.spec_secs(), self.spec_nanos(), pattern@) is None,
            },
            pattern@ == date_time_pattern() ==> r is Some,
    {
        let moment = chrono::DateTime::from_timestamp(self.secs, self.nanos)?;
        let mut out = String::new();
        match moment.format(pattern).write_to(&mut out) {
            Ok(()) => Some(out),
            Err(_) => None,
        }
    }

    /// This instant as date and time of day, after [`date_time_pattern`].
    pub open spec fn spec_date_time(self) -> Seq<char> {
        formatted_time(self.spec_secs(), self.spec_nanos(), date_time_pattern())->0
    }

    /// This instant as date and time of day: `YYYY-MM-DD HH:MM:SS`.
    pub fn date_time(&self) -> (r: String)
        ensures
            r@ == self.spec_date_time(),
    {
        match self.format("%Y-%m-%d %H:%M:%S") {
            Some(text) => text,
            // Not reached: every instant can be written after this pattern.
            None => String::new(),
        }
    }
}

/// What `chrono` writes for the instant of `secs` and `nanos` after the
/// `strftime` pattern `pattern`, if it can follow the pattern.
pub uninterp spec fn formatted_time(secs: int, nanos: int, pattern: Seq<char>) -> Option<
    Seq<char>,
>;

/// The pattern of a date and a time of day: `YYYY-MM-DD HH:MM:SS`.
pub open spec fn date_time_pattern() -> Seq<char> {
    "%Y-%m-%d %H:%M:%S"@
}

} // verus!
