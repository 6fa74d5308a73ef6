//! Instants, spans of time and local calendar time.
//!
//! Everything here counts in plain integers: an instant and a span in
//! milliseconds, a time of day in seconds. The system clock, the machine's
//! time zone and the reading of clock texts belong to `chrono`; the three
//! functions below that call it are the only ones in the library whose
//! contracts are taken on trust.

use chrono::{Datelike, Local, NaiveTime, TimeZone, Timelike, UTC};
use std::ops::Add;
use vstd::prelude::*;
use vstd::std_specs::ops::AddSpecImpl;

verus! {

/// The calendar can place an instant that lies at most this many milliseconds
/// from the Unix epoch.
pub const CALENDAR_REACH: i64 = 8_000_000_000_000_000;

/// The number of seconds in a day.
pub const SECONDS_PER_DAY: u32 = 86_400;

/// A day of the week.
#[derive(Clone, Copy, Debug, PartialEq, Eq, Structural)]
pub enum Weekday {
    Mon,
    Tue,
    Wed,
    Thu,
    Fri,
    Sat,
    Sun,
}

/// The day that lies `n` days after a Monday, for `n` from 0 to 6.
pub open spec fn weekday_numbered(n: int) -> Option<Weekday> {
    if n == 0 {
        Some(Weekday::Mon)
    } else if n == 1 {
        Some(Weekday::Tue)
    } else if n == 2 {
        Some(Weekday::Wed)
    } else if n == 3 {
        Some(Weekday::Thu)
    } else if n == 4 {
        Some(Weekday::Fri)
    } else if n == 5 {
        Some(Weekday::Sat)
    } else if n == 6 {
        Some(Weekday::Sun)
    } else {
        None
    }
}

impl Weekday {
    /// The number of days since Monday.
    pub open spec fn number(self) -> int {
        match self {
            Weekday::Mon => 0,
            Weekday::Tue => 1,
            Weekday::Wed => 2,
            Weekday::Thu => 3,
            Weekday::Fri => 4,
            Weekday::Sat => 5,
            Weekday::Sun => 6,
        }
    }

    /// The day numbered `n`, counting from Monday as 0; none outside 0 to 6.
    pub fn from_i8(n: i8) -> (res: Option<Weekday>)
        ensures
            res == weekday_numbered(n as int),
    {
        match n {
            0 => Some(Weekday::Mon),
            1 => Some(Weekday::Tue),
            2 => Some(Weekday::Wed),
            3 => Some(Weekday::Thu),
            4 => Some(Weekday::Fri),
            5 => Some(Weekday::Sat),
            6 => Some(Weekday::Sun),
            _ => None,
        }
    }

    /// The number of days since Monday.
    pub fn num_days_from_monday(&self) -> (res: u32)
        ensures
            res == self.number(),
    {
        match self {
            Weekday::Mon => 0,
            Weekday::Tue => 1,
            Weekday::Wed => 2,
            Weekday::Thu => 3,
            Weekday::Fri => 4,
            Weekday::Sat => 5,
            Weekday::Sun => 6,
        }
    }
}

/// A time of day, in whole seconds since local midnight.
#[derive(Clone, Copy, Debug, PartialEq, Eq, Structural)]
pub struct TimeOfDay {
    pub seconds: u32,
}

impl View for TimeOfDay {
    type V = int;

    /// The seconds since midnight.
    open spec fn view(&self) -> int {
        self.seconds as int
    }
}

/// The seconds from midnight to the clock reading `hour:minute:second`, where
/// that is a time of day.
pub open spec fn seconds_at(hour: int, minute: int, second: int) -> Option<int> {
    if 0 <= hour < 24 && 0 <= minute < 60 && 0 <= second < 60 {
        Some(hour * 3600 + minute * 60 + second)
    } else {
        None
    }
}

/// What `chrono` reads from `text` as a time of day under the `strftime`
/// pattern `format`, in seconds since midnight; none where `text` does not
/// follow the pattern or names no time of day.
pub uninterp spec fn clock_reading(text: Seq<char>, format: Seq<char>) -> Option<u32>;

/// `chrono::NaiveTime::parse_from_str`, with the time that it finds given in
/// whole seconds since midnight by `num_seconds_from_midnight`.
///
/// Taken on trust: that the result depends on the two texts alone, and that
/// a time of day has fewer seconds than a day.
#[verifier::external_body]
fn read_clock(text: &str, format: &str) -> (res: Option<u32>)
    ensures
        res == clock_reading(text@, format@),
        res matches Some(seconds) ==> seconds < SECONDS_PER_DAY,
{
    match NaiveTime::parse_from_str(text, format) {
        Ok(time) => Some(time.num_seconds_from_midnight()),
        Err(_) => None,
    }
}

impl TimeOfDay {
    /// The time `hour:minute:second` on a 24-hour clock, or none where that
    /// is no time of day.
    pub fn from_hms(hour: u32, minute: u32, second: u32) -> (res: Option<TimeOfDay>)
        ensures
            match seconds_at(hour as int, minute as int, second as int) {
                Some(seconds) => res matches Some(time) && time@ == seconds,
                None => res is None,
            },
    {
        if hour < 24 && minute < 60 && second < 60 {
            Some(TimeOfDay { seconds: hour * 3600 + minute * 60 + second })
        } else {
            None
        }
    }

    /// The time of day written in `text` under the `strftime` pattern
    /// `format`, or none where `text` does not follow it.
    pub fn parse_from_str(text: &str, format: &str) -> (res: Option<TimeOfDay>)
        ensures
            match clock_reading(text@, format@) {
                Some(seconds) => res == Some(TimeOfDay { seconds }) && seconds < SECONDS_PER_DAY,
                None => res is None,
            },
    {
        match read_clock(text, format) {
            Some(seconds) => Some(TimeOfDay { seconds }),
            None => None,
        }
    }
}

/// A signed span of time, in milliseconds.
#[derive(Clone, Copy, Debug, PartialEq, Eq, Structural)]
pub struct Duration {
    pub millis: i64,
}

impl View for Duration {
    type V = int;

    /// The milliseconds in the span.
    open spec fn view(&self) -> int {
        self.millis as int
    }
}

impl Duration {
    /// The empty span.
    pub fn zero() -> (res: Duration)
        ensures
            res@ == 0,
    {
        Duration { millis: 0 }
    }

    /// A span of `n` milliseconds.
    pub fn milliseconds(n: i64) -> (res: Duration)
        ensures
            res@ == n,
    {
        Duration { millis: n }
    }

    /// A span of `n` seconds.
    pub fn seconds(n: i64) -> (res: Duration)
        requires
            i64::MIN <= n * 1_000 <= i64::MAX,
        ensures
            res@ == n * 1_000,
    {
        Duration { millis: n * 1_000 }
    }

    /// A span of `n` minutes.
    pub fn minutes(n: i64) -> (res: Duration)
        requires
            i64::MIN <= n * 60_000 <= i64::MAX,
        ensures
            res@ == n * 60_000,
    {
        Duration { millis: n * 60_000 }
    }

    /// A span of `n` hours.
    pub fn hours(n: i64) -> (res: Duration)
        requires
            i64::MIN <= n * 3_600_000 <= i64::MAX,
        ensures
            res@ == n * 3_600_000,
    {
        Duration { millis: n * 3_600_000 }
    }
}

/// An instant, in milliseconds since the Unix epoch.
#[derive(Clone, Copy, Debug, PartialEq, Eq, Structural)]
pub struct Timestamp {
    pub millis: i64,
}

impl View for Timestamp {
    type V = int;

    /// The milliseconds since the Unix epoch.
    open spec fn view(&self) -> int {
        self.millis as int
    }
}

impl Add<Duration> for Timestamp {
    type Output = Timestamp;

    fn add(self, rhs: Duration) -> (res: Timestamp) {
        Timestamp { millis: self.millis + rhs.millis }
    }
}

impl AddSpecImpl<Duration> for Timestamp {
    open spec fn obeys_add_spec() -> bool {
        true
    }

    open spec fn add_req(self, rhs: Duration) -> bool {
        i64::MIN <= self.millis + rhs.millis <= i64::MAX
    }

    open spec fn add_spec(self, rhs: Duration) -> Timestamp {
        Timestamp { millis: (self.millis + rhs.millis) as i64 }
    }
}

/// `chrono::UTC::now`, given as the whole seconds since the Unix epoch
/// (`timestamp`) and the milliseconds into that second
/// (`timestamp_subsec_millis`).
///
/// Taken on trust: that the seconds lie between the first second of the
/// year -262144 and the last of the year 262143, the only instants that
/// `chrono` holds, and that the milliseconds stay under two seconds, which
/// leaves room for a leap second. Where the system clock shows an instant
/// beyond those years, `chrono` panics.
#[verifier::external_body]
fn utc_now() -> (res: (i64, u32))
    ensures
        -8_334_632_937_600 <= res.0 <= 8_210_298_412_799,
        res.1 < 2_000,
{
    let now = UTC::now();
    (now.timestamp(), now.timestamp_subsec_millis())
}

/// The local weekday, as days since Monday, and the local time of day, as
/// seconds since midnight, of the instant `seconds` after the Unix epoch:
/// `chrono::DateTime::with_timezone` into `chrono::Local`, read by
/// `weekday` and `time`.
///
/// Taken on trust: that a weekday has a number under 7 and a time of day
/// fewer seconds than a day. Which day and time come back depends on the
/// machine's time zone, so nothing more is said. Instants within a day of the
/// ends of what `chrono` holds are left out, since the local date could fall
/// outside it. Where the machine's time zone lies a day or more from UTC,
/// `chrono` panics.
#[verifier::external_body]
fn local_calendar(seconds: i64) -> (res: (u32, u32))
    requires
        -8_000_000_000_000 <= seconds <= 8_000_000_000_000,
    ensures
        res.0 < 7,
        res.1 < SECONDS_PER_DAY,
{
    let local = UTC.timestamp(seconds, 0).with_timezone(&Local);
    (local.weekday().num_days_from_monday(), local.time().num_seconds_from_midnight())
}

impl Timestamp {
    /// The current instant by the system clock.
    pub fn now() -> (res: Timestamp)
        ensures
            -8_334_632_937_600_000 <= res@ < 8_210_298_412_801_000,
    {
        let (seconds, millis) = utc_now();
        Timestamp::from_unix(seconds, millis)
    }

    /// The instant that lies `seconds` whole seconds after the Unix epoch and
    /// `millis` milliseconds into the second that follows.
    pub fn from_unix(seconds: i64, millis: u32) -> (res: Timestamp)
        requires
            i64::MIN <= seconds * 1_000 + millis <= i64::MAX,
        ensures
            res@ == seconds * 1_000 + millis,
    {
        let wide: i128 = seconds as i128 * 1_000 + millis as i128;
        Timestamp { millis: wide as i64 }
    }

    /// The whole seconds from the Unix epoch to this instant; before the
    /// epoch, the second that the instant lies in counts whole.
    pub fn epoch_seconds(&self) -> (res: i64)
        ensures
            res == self@ / 1_000,
    {
        let seconds: i64 = self.millis / 1_000;
        if self.millis % 1_000 < 0 {
            seconds - 1
        } else {
            seconds
        }
    }

    /// Whether the calendar can place this instant.
    pub open spec fn has_local_time(&self) -> bool {
        -CALENDAR_REACH <= self.millis <= CALENDAR_REACH
    }

    /// The weekday and the time of day of this instant in the machine's time
    /// zone, or none where the calendar cannot place the instant.
    pub fn local_time(&self) -> (res: Option<(Weekday, TimeOfDay)>)
        ensures
            res is Some <==> self.has_local_time(),
            res matches Some((_, time)) ==> time@ < SECONDS_PER_DAY,
    {
        if self.millis < -CALENDAR_REACH || self.millis > CALENDAR_REACH {
            return None;
        }
        let (day, seconds) = local_calendar(self.epoch_seconds());
        let weekday = Weekday::from_i8(day as i8).unwrap();
        Some((weekday, TimeOfDay { seconds }))
    }
}

} // verus!
