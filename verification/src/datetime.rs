//! Calendar values of the engine: weekdays, times of day and zoned instants.
//!
//! A [`DateTime`] is an instant on the UTC time line together with a fixed offset
//! from UTC. It is kept as three integers, so that everything the engine decides
//! from it can be stated over integers. What depends on the calendar (the day of
//! the week, the wall-clock time at the offset, the reading of a timestamp text) is
//! asked of `chrono`.

use chrono::Datelike;
use chrono::Timelike;
use vstd::prelude::*;

verus! {

/// Seconds in a civil day.
pub const SECONDS_PER_DAY: i64 = 86_400;

/// Nanoseconds in a second.
pub const NANOS_PER_SECOND: u32 = 1_000_000_000;

/// Timestamp of the earliest instant that `chrono` represents,
/// midnight UTC at the start of the year -262143.
pub const MIN_TIMESTAMP: i64 = -8_334_601_228_800;

/// Timestamp of the last second that `chrono` represents,
/// the end of the year 262142 in UTC.
pub const MAX_TIMESTAMP: i64 = 8_210_266_876_799;

/// Day of the week.
#[derive(Clone, Copy, Debug, PartialEq, Eq, Structural)]
pub enum Weekday {
    Mon,
    Tue,
    Wed,
    Thu,
    Fri,
    Sat,
    Sun,
}

impl Weekday {
    /// Days elapsed since the Monday of the same week.
    pub open spec fn spec_number(self) -> u8 {
        match self {
            Weekday::Mon => 0,
            Weekday::Tue => 1,
            Weekday::Wed => 2,
            Weekday::Thu => 3,
            Weekday::Fri => 4,
            Weekday::Sat => 5,
            Weekday::Sun => 6,
        }
    }

    /// The weekday that lies `n` days after a Monday; every `n` above 5 gives Sunday.
    pub open spec fn spec_from_number(n: int) -> Weekday {
        if n == 0 {
            Weekday::Mon
        } else if n == 1 {
            Weekday::Tue
        } else if n == 2 {
            Weekday::Wed
        } else if n == 3 {
            Weekday::Thu
        } else if n == 4 {
            Weekday::Fri
        } else if n == 5 {
            Weekday::Sat
        } else {
            Weekday::Sun
        }
    }

    /// Days elapsed since the Monday of the same week, from 0 to 6.
    #[verifier::when_used_as_spec(spec_number)]
    pub fn number(self) -> (n: u8)
        ensures
            n == self.spec_number(),
            n < 7,
            Weekday::spec_from_number(n as int) == self,
    {
        match self {
            Weekday::Mon => 0,
            Weekday::Tue => 1,
            Weekday::Wed => 2,
            Weekday::Thu => 3,
            Weekday::Fri => 4,
            Weekday::Sat => 5,
            Weekday::Sun => 6,
        }
    }

    /// The weekday that lies `n` days after a Monday; every `n` above 5 gives Sunday.
    pub fn from_number(n: u8) -> (day: Weekday)
        ensures
            day == Weekday::spec_from_number(n as int),
            n < 7 ==> day.spec_number() == n,
    {
        match n {
            0 => Weekday::Mon,
            1 => Weekday::Tue,
            2 => Weekday::Wed,
            3 => Weekday::Thu,
            4 => Weekday::Fri,
            5 => Weekday::Sat,
            _ => Weekday::Sun,
        }
    }
}

/// A wall-clock time of day without a date: whole seconds since midnight and the
/// nanoseconds past that second. Times are ordered by the seconds first and by the
/// nanoseconds second.
#[derive(Clone, Copy, Debug, PartialEq, Eq, Structural)]
pub struct NaiveTime {
    pub secs: u32,
    pub frac: u32,
}

impl NaiveTime {
    /// A time of day as `chrono` holds it: before the end of the day, with a
    /// fraction below two seconds (one second or more stands for a leap second).
    pub open spec fn wf(self) -> bool {
        &&& self.secs < SECONDS_PER_DAY
        &&& self.frac < 2 * NANOS_PER_SECOND
    }

    /// `self` is no later in the day than `other`.
    pub open spec fn spec_le(&self, other: &NaiveTime) -> bool {
        self.secs < other.secs || (self.secs == other.secs && self.frac <= other.frac)
    }

    /// The time `hour:min:sec` sharp, if there is such a time.
    pub fn from_hms(hour: u32, min: u32, sec: u32) -> (time: Option<NaiveTime>)
        ensures
            time is Some <==> hour < 24 && min < 60 && sec < 60,
            time matches Some(t) ==> t.secs == hour * 3600 + min * 60 + sec && t.frac == 0
                && t.wf(),
    {
        if hour < 24 && min < 60 && sec < 60 {
            Some(NaiveTime { secs: hour * 3600 + min * 60 + sec, frac: 0 })
        } else {
            None
        }
    }

    /// Whether `self` is no later in the day than `other`.
    #[verifier::when_used_as_spec(spec_le)]
    pub fn le(&self, other: &NaiveTime) -> (r: bool)
        ensures
            r == self.spec_le(other),
    {
        self.secs < other.secs || (self.secs == other.secs && self.frac <= other.frac)
    }
}

/// Whether three integers describe an instant that `chrono` represents: a
/// timestamp within its range, an offset of less than a day either way, and a
/// fraction below one second, or below two within the last second of a minute,
/// where it stands for a leap second.
pub open spec fn valid_parts(secs: int, nanos: int, offset: int) -> bool {
    &&& MIN_TIMESTAMP <= secs <= MAX_TIMESTAMP
    &&& -SECONDS_PER_DAY < offset < SECONDS_PER_DAY
    &&& 0 <= nanos < 2 * NANOS_PER_SECOND
    &&& nanos >= NANOS_PER_SECOND ==> secs % 60 == 59
}

/// The mathematical content of a [`DateTime`].
pub struct DateTimeView {
    /// Whole non-leap seconds since 1970-01-01 00:00:00 UTC.
    pub secs: int,
    /// Nanoseconds past that second.
    pub nanos: int,
    /// Seconds that local time is ahead of UTC.
    pub offset: int,
}

impl DateTimeView {
    /// See [`valid_parts`].
    pub open spec fn wf(self) -> bool {
        valid_parts(self.secs, self.nanos, self.offset)
    }

    /// Nanoseconds since 1970-01-01 00:00:00 UTC.
    pub open spec fn nanos_since_epoch(self) -> int {
        self.secs * NANOS_PER_SECOND + self.nanos
    }

    /// Seconds since local midnight at the offset.
    pub open spec fn second_of_day(self) -> int {
        ((self.secs % (SECONDS_PER_DAY as int)) + self.offset) % (SECONDS_PER_DAY as int)
    }

    /// Local time of day at the offset.
    pub open spec fn time(self) -> NaiveTime {
        NaiveTime { secs: self.second_of_day() as u32, frac: self.nanos as u32 }
    }

    /// Days since the Unix epoch of the local calendar day at the offset; negative
    /// before 1970.
    pub open spec fn local_day(self) -> int {
        (self.secs + self.offset) / (SECONDS_PER_DAY as int)
    }

    /// Days from Monday to the local day of the week at the offset. The day of
    /// the Unix epoch was a Thursday, three days after a Monday, and the days of the
    /// week follow each other without a gap.
    pub open spec fn weekday_number(self) -> int {
        (self.local_day() + 3) % 7
    }

    /// Local day of the week at the offset.
    pub open spec fn weekday(self) -> Weekday {
        Weekday::spec_from_number(self.weekday_number())
    }

    /// Local calendar date at the offset, written as year, month and day with
    /// hyphens between them, as `chrono` writes it.
    pub open spec fn date_text(self) -> Seq<char> {
        local_date_text(self.secs, self.nanos, self.offset)
    }

    /// The instant `seconds` later, at the same offset, as `chrono` adds whole
    /// seconds to an instant. Time lines have no leap seconds to count through, so
    /// an instant within a leap second is first taken out of it: forward it counts
    /// as the second the leap second follows, backward as the second after that,
    /// and the fraction loses its extra second. Adding nothing leaves the instant
    /// as it is.
    pub open spec fn plus_seconds(self, seconds: int) -> DateTimeView {
        if self.nanos >= NANOS_PER_SECOND && seconds > 0 {
            DateTimeView {
                secs: self.secs + seconds,
                nanos: self.nanos - NANOS_PER_SECOND,
                offset: self.offset,
            }
        } else if self.nanos >= NANOS_PER_SECOND && seconds < 0 {
            DateTimeView {
                secs: self.secs + 1 + seconds,
                nanos: self.nanos - NANOS_PER_SECOND,
                offset: self.offset,
            }
        } else {
            DateTimeView { secs: self.secs + seconds, nanos: self.nanos, offset: self.offset }
        }
    }
}

/// The text that `chrono` writes under the format `%Y-%m-%d` for the instant
/// `secs` seconds and `nanos` nanoseconds after the Unix epoch, seen `offset`
/// seconds east of UTC.
pub uninterp spec fn local_date_text(secs: int, nanos: int, offset: int) -> Seq<char>;

/// What `chrono` reads from `text` as an RFC 3339 date and time: the timestamp,
/// the nanoseconds past it and the offset in seconds east of UTC, or `None` where
/// it rejects the text.
pub uninterp spec fn rfc3339_parts(text: Seq<char>) -> Option<(i64, u32, i32)>;

/// The words in which `chrono` says why it rejects `text` as an RFC 3339 date and
/// time. They mean something only where it does reject the text.
pub uninterp spec fn rfc3339_error(text: Seq<char>) -> Seq<char>;

/// The words for an instant that lies outside the range of instants.
pub open spec fn out_of_range_words() -> Seq<char> {
    "input is out of range"@
}

/// An instant with a fixed offset from UTC.
#[derive(Clone, Copy, Debug)]
pub struct DateTime {
    secs: i64,
    nanos: u32,
    offset: i32,
}

impl View for DateTime {
    type V = DateTimeView;

    closed spec fn view(&self) -> DateTimeView {
        DateTimeView { secs: self.secs as int, nanos: self.nanos as int, offset: self.offset as int }
    }
}

/// Calls `chrono`'s `Datelike::weekday` on the `DateTime<FixedOffset>` that
/// `DateTime::from_timestamp` and `with_timezone` make of the arguments, and
/// counts the days from Monday with `Weekday::num_days_from_monday`.
///
/// `chrono` takes the day of the week from the calendar date that the instant
/// has at the offset. The contract says which day that is without the calendar:
/// the local day is so many whole days from 1970-01-01, a Thursday, and every day
/// moves the day of the week on by one.
#[verifier::external_body]
fn chrono_weekday(secs: i64, nanos: u32, offset: i32) -> (day: u8)
    requires
        valid_parts(secs as int, nanos as int, offset as int),
    ensures
        day as int == ((secs as int + offset as int) / (SECONDS_PER_DAY as int) + 3) % 7,
{
    let zone = chrono::FixedOffset::east_opt(offset).unwrap();
    let utc = chrono::DateTime::from_timestamp(secs, nanos).unwrap();
    utc.with_timezone(&zone).weekday().num_days_from_monday() as u8
}

/// Calls `chrono`'s `DateTime::time` on the `DateTime<FixedOffset>` that
/// `DateTime::from_timestamp` and `with_timezone` make of the arguments.
/// `from_timestamp` keeps the seconds of the timestamp modulo a day and the
/// nanoseconds as they are; `time` adds the offset to those seconds, again modulo
/// a day.
#[verifier::external_body]
fn chrono_time(secs: i64, nanos: u32, offset: i32) -> (time: NaiveTime)
    requires
        valid_parts(secs as int, nanos as int, offset as int),
    ensures
        time.secs as int == ((secs as int % (SECONDS_PER_DAY as int)) + offset as int) % (
        SECONDS_PER_DAY as int),
        time.frac == nanos,
{
    let zone = chrono::FixedOffset::east_opt(offset).unwrap();
    let utc = chrono::DateTime::from_timestamp(secs, nanos).unwrap();
    let local = utc.with_timezone(&zone).time();
    NaiveTime { secs: local.num_seconds_from_midnight(), frac: local.nanosecond() }
}

/// Calls `chrono`'s `DateTime::format` with the format `%Y-%m-%d` on the
/// `DateTime<FixedOffset>` that `DateTime::from_timestamp` and `with_timezone`
/// make of the arguments, and collects what it writes. The text is not computed
/// here; the contract gives it a name.
#[verifier::external_body]
fn chrono_format_date(secs: i64, nanos: u32, offset: i32) -> (text: String)
    requires
        valid_parts(secs as int, nanos as int, offset as int),
    ensures
        text@ == local_date_text(secs as int, nanos as int, offset as int),
{
    let zone = chrono::FixedOffset::east_opt(offset).unwrap();
    let utc = chrono::DateTime::from_timestamp(secs, nanos).unwrap();
    utc.with_timezone(&zone).format("%Y-%m-%d").to_string()
}

/// Calls `chrono`'s `DateTime::parse_from_rfc3339`. What it reads is taken apart
/// with `timestamp`, `timestamp_subsec_nanos` and `FixedOffset::local_minus_utc`;
/// where it rejects the text, its error is handed back in the words that the
/// error's `Display` gives. The grammar and the words are `chrono`'s; the contract
/// only gives each of the two outcomes a name.
#[verifier::external_body]
fn chrono_parse_rfc3339(text: &str) -> (parsed: Result<(i64, u32, i32), String>)
    ensures
        parsed matches Ok(parts) ==> rfc3339_parts(text@) == Some(parts),
        parsed matches Err(words) ==> rfc3339_parts(text@) is None && words@ == rfc3339_error(
            text@,
        ),
{
    match chrono::DateTime::parse_from_rfc3339(text) {
        Ok(t) => Ok((t.timestamp(), t.timestamp_subsec_nanos(), t.offset().local_minus_utc())),
        Err(error) => Err(error.to_string()),
    }
}

/// Reads the system clock and the local time zone through `chrono`'s `Local::now`
/// and takes the result apart with `timestamp`, `timestamp_subsec_nanos` and
/// `FixedOffset::local_minus_utc`.
///
/// Which instant comes back is for the clock to say. Whichever it is, `Local::now`
/// makes it with `DateTime::from_timestamp`, which accepts the seconds and
/// nanoseconds only within `chrono`'s range, and gives it an offset that a
/// `FixedOffset` holds, which is less than a day either way: that much is claimed
/// here, and no more. `chrono` panics if the system clock stands before 1970 or if
/// it cannot find the offset of the local time zone.
#[verifier::external_body]
fn chrono_now() -> (parts: (i64, u32, i32))
    ensures
        valid_parts(parts.0 as int, parts.1 as int, parts.2 as int),
{
    let now = chrono::Local::now();
    (now.timestamp(), now.timestamp_subsec_nanos(), now.offset().local_minus_utc())
}

/// The system clock's reading in seconds since the Unix epoch. Two readings need
/// not agree; every reading is a timestamp within the range of instants.
pub(crate) fn current_timestamp() -> (now: i64)
    ensures
        MIN_TIMESTAMP <= now <= MAX_TIMESTAMP,
{
    chrono_now().0
}

impl DateTime {
    #[verifier::type_invariant]
    spec fn inv(self) -> bool {
        valid_parts(self.secs as int, self.nanos as int, self.offset as int)
    }

    /// The instant `secs` seconds and `nanos` nanoseconds after the Unix epoch, seen
    /// `offset` seconds east of UTC, if `chrono` represents it.
    pub fn new(secs: i64, nanos: u32, offset: i32) -> (made: Option<DateTime>)
        ensures
            made is Some <==> valid_parts(secs as int, nanos as int, offset as int),
            made matches Some(t) ==> t@ == (DateTimeView {
                secs: secs as int,
                nanos: nanos as int,
                offset: offset as int,
            }),
    {
        if secs < MIN_TIMESTAMP || secs > MAX_TIMESTAMP {
            return None;
        }
        if offset <= -86_400 || offset >= 86_400 {
            return None;
        }
        if nanos >= 2 * NANOS_PER_SECOND {
            return None;
        }
        if nanos >= NANOS_PER_SECOND {
            let since_min: i64 = secs - MIN_TIMESTAMP;
            assert(since_min as int % 60 == secs as int % 60) by {
                assert(MIN_TIMESTAMP as int == 60 * (-138_910_020_480int));
                vstd::arithmetic::div_mod::lemma_mod_multiples_vanish(
                    138_910_020_480int,
                    secs as int,
                    60,
                );
            }
            if since_min % 60 != 59 {
                return None;
            }
        }
        Some(DateTime { secs, nanos, offset })
    }

    /// The present instant by the system clock, at the offset of the local time
    /// zone. Two readings need not agree, and nothing is known of a reading but
    /// that it is an instant: there always is one. The clock is read by `chrono`,
    /// which panics where the system clock stands before 1970.
    pub fn now() -> (made: Option<DateTime>)
        ensures
            made is Some,
    {
        let parts = chrono_now();
        DateTime::new(parts.0, parts.1, parts.2)
    }

    /// The instant that `chrono` reads from `text` as an RFC 3339 date and time, or
    /// the words in which it says why it rejects the text.
    pub open spec fn spec_parse_from_rfc3339(text: Seq<char>) -> Result<DateTimeView, Seq<char>> {
        match rfc3339_parts(text) {
            Some(parts) => if valid_parts(parts.0 as int, parts.1 as int, parts.2 as int) {
                Ok(
                    DateTimeView {
                        secs: parts.0 as int,
                        nanos: parts.1 as int,
                        offset: parts.2 as int,
                    },
                )
            } else {
                Err(out_of_range_words())
            },
            None => Err(rfc3339_error(text)),
        }
    }

    /// Reads an RFC 3339 date and time, such as `1996-12-19T16:39:57-08:00`. What
    /// is accepted, which instant it stands for, and what is said of a text that
    /// is not accepted, is for `chrono` to say.
    pub fn parse_from_rfc3339(text: &str) -> (parsed: Result<DateTime, String>)
        ensures
            match DateTime::spec_parse_from_rfc3339(text@) {
                Ok(instant) => parsed matches Ok(dt) && dt@ == instant,
                Err(words) => parsed matches Err(said) && said@ == words,
            },
    {
        match chrono_parse_rfc3339(text) {
            Ok(parts) => match DateTime::new(parts.0, parts.1, parts.2) {
                Some(dt) => Ok(dt),
                None => Err(String::from_str("input is out of range")),
            },
            Err(words) => Err(words),
        }
    }

    /// Whole non-leap seconds since 1970-01-01 00:00:00 UTC.
    pub fn timestamp(&self) -> (secs: i64)
        ensures
            secs == self@.secs,
            self@.wf(),
    {
        proof {
            use_type_invariant(self);
        }
        self.secs
    }

    /// Nanoseconds past the second of [`DateTime::timestamp`]; one second or more
    /// within a leap second.
    pub fn timestamp_subsec_nanos(&self) -> (nanos: u32)
        ensures
            nanos == self@.nanos,
            self@.wf(),
    {
        proof {
            use_type_invariant(self);
        }
        self.nanos
    }

    /// Seconds that local time is ahead of UTC.
    pub fn offset(&self) -> (offset: i32)
        ensures
            offset == self@.offset,
            self@.wf(),
    {
        proof {
            use_type_invariant(self);
        }
        self.offset
    }

    /// The instant `seconds` later at the same offset (see
    /// [`DateTimeView::plus_seconds`]), if it can be represented.
    pub closed spec fn spec_checked_add_seconds(&self, seconds: i64) -> Option<DateTime> {
        let later = self@.plus_seconds(seconds as int);
        if later.wf() {
            Some(DateTime { secs: later.secs as i64, nanos: later.nanos as u32, offset: self.offset })
        } else {
            None
        }
    }

    /// What [`DateTime::spec_checked_add_seconds`] stands for, in terms of views.
    pub proof fn lemma_checked_add_seconds(&self, seconds: i64)
        ensures
            self.spec_checked_add_seconds(seconds) is Some <==> self@.plus_seconds(
                seconds as int,
            ).wf(),
            self.spec_checked_add_seconds(seconds) matches Some(later) ==> later@
                == self@.plus_seconds(seconds as int),
    {
    }

    /// The instant `seconds` later at the same offset (see
    /// [`DateTimeView::plus_seconds`]), if it can be represented.
    #[verifier::when_used_as_spec(spec_checked_add_seconds)]
    pub fn checked_add_seconds(&self, seconds: i64) -> (later: Option<DateTime>)
        ensures
            later == self.spec_checked_add_seconds(seconds),
            later is Some <==> self@.plus_seconds(seconds as int).wf(),
            later matches Some(t) ==> t@ == self@.plus_seconds(seconds as int),
    {
        proof {
            use_type_invariant(self);
        }
        let in_leap_second = self.nanos >= NANOS_PER_SECOND && seconds != 0;
        let from: i64 = if in_leap_second && seconds < 0 {
            self.secs + 1
        } else {
            self.secs
        };
        let nanos: u32 = if in_leap_second {
            self.nanos - NANOS_PER_SECOND
        } else {
            self.nanos
        };
        match from.checked_add(seconds) {
            Some(secs) => DateTime::new(secs, nanos, self.offset),
            None => None,
        }
    }

    /// Local day of the week.
    pub fn weekday(&self) -> (day: Weekday)
        ensures
            day == self@.weekday(),
    {
        proof {
            use_type_invariant(self);
        }
        Weekday::from_number(chrono_weekday(self.secs, self.nanos, self.offset))
    }

    /// Local calendar date as year, month and day with hyphens between them,
    /// such as `2024-01-01`.
    pub fn format_date(&self) -> (text: String)
        ensures
            text@ == self@.date_text(),
    {
        proof {
            use_type_invariant(self);
        }
        chrono_format_date(self.secs, self.nanos, self.offset)
    }

    /// Local time of day.
    pub fn time(&self) -> (time: NaiveTime)
        ensures
            time == self@.time(),
            time.wf(),
    {
        proof {
            use_type_invariant(self);
        }
        chrono_time(self.secs, self.nanos, self.offset)
    }
}

} // verus!
