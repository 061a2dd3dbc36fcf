//! Points in civil time, without a time zone.
//!
//! A timestamp counts seconds since the start of 1970 and nanoseconds into
//! the second. A count of nanoseconds of a thousand million or more marks a
//! leap second, which can only follow the last second of a minute.

use vstd::prelude::*;

verus! {

/// The first second that a timestamp can hold: the start of the year -262143.
pub const MIN_SECONDS: i64 = -8_334_601_228_800;

/// The last second that a timestamp can hold: the end of the year 262142.
pub const MAX_SECONDS: i64 = 8_210_266_876_799;

/// Nanoseconds in a second.
pub const NANOS_PER_SECOND: u32 = 1_000_000_000;

/// Seconds in a minute.
pub const SECONDS_PER_MINUTE: i64 = 60;

/// Seconds in a day.
pub const SECONDS_PER_DAY: i64 = 86_400;

/// Whether a pair of counts is a timestamp.
pub open spec fn representable(secs: int, nanos: int) -> bool {
    &&& MIN_SECONDS <= secs <= MAX_SECONDS
    &&& 0 <= nanos < 2 * NANOS_PER_SECOND
    &&& nanos >= NANOS_PER_SECOND ==> secs % 60 == 59
}

/// A whole number of `unit`s in `amount`, cut off towards zero.
pub open spec fn whole_units(amount: int, unit: int) -> int {
    if amount >= 0 {
        amount / unit
    } else {
        -((-amount) / unit)
    }
}

/// What `chrono::NaiveDateTime::parse_from_str` makes of a text under a
/// format: the counts of the date and time read, or nothing where the text
/// does not fit the format or names no date and time.
pub uninterp spec fn parsed_date_time(text: Seq<char>, format: Seq<char>) -> Option<(i64, u32)>;

/// What `chrono::NaiveDateTime::format` writes for the date and time with
/// these counts under a format.
pub uninterp spec fn formatted_date_time(secs: i64, nanos: u32, format: Seq<char>) -> Seq<char>;

/// The formats in which timestamps are written out. Each is made of the
/// specifiers for year, month and day, for hour, minute and second, and for
/// the short month name, all of which apply to a date with a time of day.
pub open spec fn is_output_format(format: Seq<char>) -> bool {
    ||| format == "%Y-%m-%d %H:%M"@
    ||| format == "%Y-%m-%d %H:%M:%S"@
    ||| format == "%b %-d, %H:%M"@
    ||| format == "%Y-%m-%d"@
}

/// The timestamp that a text stands for under a format, if any.
pub open spec fn parsed(text: Seq<char>, format: Seq<char>) -> Option<Timestamp> {
    match parsed_date_time(text, format) {
        Some((secs, nanos)) => Some(Timestamp::from_parts(secs, nanos)),
        None => None,
    }
}

/// Reads a date and time with `chrono::NaiveDateTime::parse_from_str`.
///
/// Trusted: the outcome depends on the text and the format alone, and a
/// date and time that was read is handed back as its seconds since 1970 and
/// its nanoseconds into the second, as chrono counts them. Nothing is
/// claimed about which texts fit.
#[verifier::external_body]
fn parse_from_str(text: &str, pattern: &str) -> (stamp: Option<Timestamp>)
    ensures
        stamp matches Some(read) ==> parsed_date_time(text@, pattern@) == Some(
            (read.seconds(), read.subsec_nanos()),
        ),
        stamp is None ==> parsed_date_time(text@, pattern@) is None,
{
    match chrono::NaiveDateTime::parse_from_str(text, pattern) {
        Ok(read) => Some(
            Timestamp {
                secs: read.and_utc().timestamp(),
                nanos: read.and_utc().timestamp_subsec_nanos(),
            },
        ),
        Err(_) => None,
    }
}

/// Writes a date and time with `chrono::NaiveDateTime::format`, after
/// `chrono::DateTime::from_timestamp` has made chrono's date and time of the
/// two counts.
///
/// Trusted: the text depends on the timestamp and the format alone. Every
/// timestamp is one that chrono can hold, which is the invariant of the
/// type, and the format has to be one of those listed, which chrono can
/// always apply. Nothing is claimed about what the text looks like.
#[verifier::external_body]
pub(crate) fn format_with(stamp: &Timestamp, pattern: &str) -> (text: String)
    requires
        is_output_format(pattern@),
    ensures
        text@ == formatted_date_time(stamp.seconds(), stamp.subsec_nanos(), pattern@),
{
    chrono::DateTime::from_timestamp(stamp.secs, stamp.nanos)
        .unwrap()
        .naive_utc()
        .format(pattern)
        .to_string()
}

/// Reads the clock with `chrono::Local::now` and drops the time zone.
///
/// Trusted only in that a timestamp comes back; which one is not stated.
#[verifier::external_body]
pub(crate) fn now() -> (now: Timestamp) {
    let local = chrono::Local::now().naive_local();
    Timestamp {
        secs: local.and_utc().timestamp(),
        nanos: local.and_utc().timestamp_subsec_nanos(),
    }
}

/// A date and time of day.
#[derive(Debug, Clone, Copy, PartialEq, Eq, Structural)]
pub struct Timestamp {
    secs: i64,
    nanos: u32,
}

impl Timestamp {
    /// Every timestamp is one that the calendar can hold.
    #[verifier::type_invariant]
    closed spec fn well_formed(self) -> bool {
        representable(self.secs as int, self.nanos as int)
    }

    /// Seconds since the start of 1970; negative before it.
    pub closed spec fn seconds(self) -> i64 {
        self.secs
    }

    /// Nanoseconds into the second.
    pub closed spec fn subsec_nanos(self) -> u32 {
        self.nanos
    }

    /// The timestamp with these counts.
    pub closed spec fn from_parts(secs: i64, nanos: u32) -> Timestamp {
        Timestamp { secs, nanos }
    }

    /// The text for this timestamp under a format.
    pub open spec fn formatted(self, format: Seq<char>) -> Seq<char> {
        formatted_date_time(self.seconds(), self.subsec_nanos(), format)
    }

    /// The second of the day, counted from midnight.
    pub open spec fn second_of_day(self) -> int {
        self.seconds() as int % SECONDS_PER_DAY as int
    }

    /// Whether `self` comes before `other`: by the second, then by the
    /// nanoseconds into it.
    pub open spec fn is_before(self, other: Timestamp) -> bool {
        self.seconds() < other.seconds() || (self.seconds() == other.seconds()
            && self.subsec_nanos() < other.subsec_nanos())
    }

    /// The time from `other` to `self` in nanoseconds, negative where `self`
    /// is the earlier. Where the later of the two stands on another second
    /// of the day than the earlier, and the earlier is within a leap second,
    /// that leap second has passed in between and is counted.
    pub open spec fn nanos_since(self, other: Timestamp) -> int {
        let leap: int = if self.second_of_day() > other.second_of_day() && other.subsec_nanos()
            >= NANOS_PER_SECOND {
            1
        } else if self.second_of_day() < other.second_of_day() && self.subsec_nanos()
            >= NANOS_PER_SECOND {
            -1
        } else {
            0
        };
        (self.seconds() - other.seconds() + leap) * NANOS_PER_SECOND + (self.subsec_nanos()
            - other.subsec_nanos())
    }

    /// The whole seconds from `other` to `self`.
    pub open spec fn seconds_since(self, other: Timestamp) -> int {
        whole_units(self.nanos_since(other), NANOS_PER_SECOND as int)
    }

    /// The whole minutes from `other` to `self`.
    pub open spec fn minutes_since(self, other: Timestamp) -> int {
        whole_units(self.seconds_since(other), SECONDS_PER_MINUTE as int)
    }

    /// The whole days from `other` to `self`.
    pub open spec fn days_since(self, other: Timestamp) -> int {
        whole_units(self.seconds_since(other), SECONDS_PER_DAY as int)
    }

    /// The whole minutes between two timestamps, whichever comes first.
    pub open spec fn minutes_apart(self, other: Timestamp) -> int {
        if self.minutes_since(other) >= 0 {
            self.minutes_since(other)
        } else {
            -self.minutes_since(other)
        }
    }

    /// The timestamp with these counts, if there is one.
    pub fn new(secs: i64, nanos: u32) -> (made: Option<Timestamp>)
        ensures
            representable(secs as int, nanos as int) ==> made == Some(
                Timestamp::from_parts(secs, nanos),
            ),
            !representable(secs as int, nanos as int) ==> made is None,
    {
        if secs < MIN_SECONDS || secs > MAX_SECONDS || nanos >= 2 * NANOS_PER_SECOND {
            return None;
        }
        if nanos >= NANOS_PER_SECOND && Self::second_of_minute(secs) != 59 {
            return None;
        }
        Some(Timestamp { secs, nanos })
    }

    /// The second of the minute on which a count of seconds falls.
    fn second_of_minute(secs: i64) -> (s: i64)
        requires
            MIN_SECONDS <= secs <= MAX_SECONDS,
        ensures
            s == secs as int % 60,
    {
        // MIN_SECONDS is a multiple of 60, so the shifted count is not negative.
        (secs - MIN_SECONDS) % 60
    }

    /// Seconds since the start of 1970; negative before it.
    pub fn secs(&self) -> (secs: i64)
        ensures
            secs == self.seconds(),
            representable(secs as int, self.subsec_nanos() as int),
    {
        proof {
            use_type_invariant(self);
        }
        self.secs
    }

    /// Nanoseconds into the second.
    pub fn nanos(&self) -> (nanos: u32)
        ensures
            nanos == self.subsec_nanos(),
            representable(self.seconds() as int, nanos as int),
    {
        proof {
            use_type_invariant(self);
        }
        self.nanos
    }

    /// A timestamp is made of its two counts and nothing else.
    pub proof fn lemma_parts(self)
        ensures
            self == Timestamp::from_parts(self.seconds(), self.subsec_nanos()),
    {
    }

    /// The counts of a timestamp made from parts are those parts.
    pub proof fn lemma_from_parts(secs: i64, nanos: u32)
        ensures
            Timestamp::from_parts(secs, nanos).seconds() == secs,
            Timestamp::from_parts(secs, nanos).subsec_nanos() == nanos,
    {
    }

    /// Reads a timestamp from a text under a format.
    pub fn parse(text: &str, pattern: &str) -> (stamp: Option<Timestamp>)
        ensures
            stamp == parsed(text@, pattern@),
    {
        parse_from_str(text, pattern)
    }

    /// Whether `self` comes before `other`.
    pub fn before(&self, other: &Timestamp) -> (earlier: bool)
        ensures
            earlier == self.is_before(*other),
    {
        self.secs < other.secs || (self.secs == other.secs && self.nanos < other.nanos)
    }

    /// The second of the day, counted from midnight.
    fn day_second(&self) -> (s: i64)
        ensures
            s == self.second_of_day(),
            0 <= s < SECONDS_PER_DAY,
    {
        proof {
            use_type_invariant(self);
        }
        // MIN_SECONDS is a multiple of 86400, so the shifted count is not negative.
        (self.secs - MIN_SECONDS) % SECONDS_PER_DAY
    }

    /// The whole seconds from `other` to `self`, cut off towards zero.
    pub fn whole_seconds_since(&self, other: &Timestamp) -> (elapsed: i64)
        ensures
            elapsed == self.seconds_since(*other),
            -17_000_000_000_000 < elapsed < 17_000_000_000_000,
    {
        proof {
            use_type_invariant(self);
            use_type_invariant(other);
        }
        let mine = self.day_second();
        let theirs = other.day_second();
        let leap: i64 = if mine > theirs && other.nanos >= NANOS_PER_SECOND {
            1
        } else if mine < theirs && self.nanos >= NANOS_PER_SECOND {
            -1
        } else {
            0
        };
        let whole: i64 = self.secs - other.secs + leap;
        let part: i64 = self.nanos as i64 - other.nanos as i64;
        let total: i128 = (whole as i128) * 1_000_000_000 + (part as i128);
        assert(total == self.nanos_since(*other));
        if total >= 0 {
            (total / 1_000_000_000) as i64
        } else {
            -(((-total) / 1_000_000_000) as i64)
        }
    }

    /// The whole minutes from `other` to `self`, cut off towards zero.
    pub fn whole_minutes_since(&self, other: &Timestamp) -> (elapsed: i64)
        ensures
            elapsed == self.minutes_since(*other),
            -300_000_000_000 < elapsed < 300_000_000_000,
    {
        let seconds = self.whole_seconds_since(other);
        if seconds >= 0 {
            seconds / SECONDS_PER_MINUTE
        } else {
            -((-seconds) / SECONDS_PER_MINUTE)
        }
    }

    /// The whole days from `other` to `self`, cut off towards zero.
    pub fn whole_days_since(&self, other: &Timestamp) -> (elapsed: i64)
        ensures
            elapsed == self.days_since(*other),
    {
        let seconds = self.whole_seconds_since(other);
        if seconds >= 0 {
            seconds / SECONDS_PER_DAY
        } else {
            -((-seconds) / SECONDS_PER_DAY)
        }
    }

    /// The whole minutes between two timestamps, whichever comes first.
    pub fn whole_minutes_apart(&self, other: &Timestamp) -> (gap: i64)
        ensures
            gap == self.minutes_apart(*other),
            0 <= gap,
    {
        let minutes = self.whole_minutes_since(other);
        if minutes >= 0 {
            minutes
        } else {
            -minutes
        }
    }
}

} // verus!
