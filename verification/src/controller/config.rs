//! Setpoints, the weekly schedule that replaces them, and the two timed
//! overrides.

use crate::time::{Duration, TimeOfDay, Timestamp, Weekday, SECONDS_PER_DAY};
use crate::uom::temp::{clamp_tenths, Temperature, F};
use std::ops::Range;
use vstd::prelude::*;

verus! {

/// How far under a setpoint its band begins, in tenths of a degree.
pub const BAND_BELOW: i32 = 5;

/// How far over a setpoint its band ends, in tenths of a degree.
pub const BAND_ABOVE: i32 = 9;

/// Setpoints that hold on some days of the week, between two times of day.
#[derive(Debug)]
pub struct ScheduleLeg {
    pub min_temp: Temperature<F>,
    pub max_temp: Temperature<F>,
    pub weekdays: Vec<Weekday>,
    /// From `start` up to, and without, `end`, in local time.
    pub active_range: Range<TimeOfDay>,
}

/// What a leg holds, with temperatures in tenths of a degree and times of
/// day in seconds since local midnight.
pub struct LegView {
    pub min_temp: int,
    pub max_temp: int,
    pub weekdays: Seq<Weekday>,
    pub start: int,
    pub end: int,
}

impl LegView {
    /// Whether the leg holds on `day` at `time` seconds after local midnight.
    pub open spec fn covers(self, day: Weekday, time: int) -> bool {
        self.weekdays.contains(day) && self.start <= time < self.end
    }
}

impl View for ScheduleLeg {
    type V = LegView;

    open spec fn view(&self) -> LegView {
        LegView {
            min_temp: self.min_temp@,
            max_temp: self.max_temp@,
            weekdays: self.weekdays@,
            start: self.active_range.start@,
            end: self.active_range.end@,
        }
    }
}

impl Clone for ScheduleLeg {
    fn clone(&self) -> (res: ScheduleLeg)
        ensures
            res@ == self@,
    {
        ScheduleLeg {
            min_temp: self.min_temp,
            max_temp: self.max_temp,
            weekdays: self.weekdays.clone(),
            active_range: Range { start: self.active_range.start, end: self.active_range.end },
        }
    }
}

impl ScheduleLeg {
    /// Whether the leg names `day`.
    pub fn on_weekday(&self, day: Weekday) -> (res: bool)
        ensures
            res == self@.weekdays.contains(day),
    {
        let mut i: usize = 0;
        while i < self.weekdays.len()
            invariant
                i <= self.weekdays@.len(),
                forall|j: int| 0 <= j < i ==> self.weekdays@[j] != day,
            decreases self.weekdays@.len() - i,
        {
            if self.weekdays[i] == day {
                return true;
            }
            i += 1;
        }
        false
    }

    /// Whether the leg holds on `day` at `time`.
    pub fn is_active(&self, day: Weekday, time: TimeOfDay) -> (res: bool)
        ensures
            res == self@.covers(day, time@),
    {
        self.on_weekday(day) && self.active_range.start.seconds <= time.seconds
            && time.seconds < self.active_range.end.seconds
    }
}

/// The first of `legs` that holds on `day` at `time`, if one does.
pub open spec fn active_leg(legs: Seq<LegView>, day: Weekday, time: int) -> Option<LegView>
    decreases legs.len(),
{
    if legs.len() == 0 {
        None
    } else if legs[0].covers(day, time) {
        Some(legs[0])
    } else {
        active_leg(legs.drop_first(), day, time)
    }
}

/// Legs that do not hold can be passed over.
proof fn lemma_active_leg_skip(legs: Seq<LegView>, day: Weekday, time: int, n: int)
    requires
        0 <= n <= legs.len(),
        forall|j: int| 0 <= j < n ==> !(#[trigger] legs[j]).covers(day, time),
    ensures
        active_leg(legs, day, time) == active_leg(legs.skip(n), day, time),
    decreases n,
{
    if n == 0 {
        assert(legs.skip(0) =~= legs);
    } else {
        lemma_active_leg_skip(legs, day, time, n - 1);
        let rest = legs.skip(n - 1);
        assert(rest[0] == legs[n - 1]);
        assert(rest.drop_first() =~= legs.skip(n));
    }
}

/// Whether `legs[i]` holds on `day` at `time` and no leg before it does.
pub open spec fn is_first_active(legs: Seq<LegView>, i: int, day: Weekday, time: int) -> bool {
    &&& 0 <= i < legs.len()
    &&& legs[i].covers(day, time)
    &&& forall|j: int| 0 <= j < i ==> !(#[trigger] legs[j]).covers(day, time)
}

/// The active leg is the first that holds: it is one of the legs, it holds,
/// and none before it does. Where there is none, no leg holds.
pub proof fn lemma_active_leg_is_first(legs: Seq<LegView>, day: Weekday, time: int)
    ensures
        match active_leg(legs, day, time) {
            Some(leg) => exists|i: int| #[trigger]
                is_first_active(legs, i, day, time) && legs[i] == leg,
            None => forall|j: int| 0 <= j < legs.len() ==> !(#[trigger] legs[j]).covers(day, time),
        },
    decreases legs.len(),
{
    if legs.len() == 0 {
    } else if legs[0].covers(day, time) {
        assert(is_first_active(legs, 0, day, time));
    } else {
        let rest = legs.drop_first();
        lemma_active_leg_is_first(rest, day, time);
        match active_leg(rest, day, time) {
            Some(leg) => {
                let i = choose|i: int| #[trigger]
                    is_first_active(rest, i, day, time) && rest[i] == leg;
                assert forall|j: int| 0 <= j < i + 1 implies !(#[trigger] legs[j]).covers(
                    day,
                    time,
                ) by {
                    if j > 0 {
                        assert(rest[j - 1] == legs[j]);
                    }
                }
                assert(is_first_active(legs, i + 1, day, time));
            },
            None => {
                assert forall|j: int| 0 <= j < legs.len() implies !(#[trigger] legs[j]).covers(
                    day,
                    time,
                ) by {
                    if j > 0 {
                        assert(rest[j - 1] == legs[j]);
                    }
                }
            },
        }
    }
}

/// An ordered list of legs. Where several hold at once, the first one counts.
#[derive(Debug)]
pub struct Schedule {
    pub legs: Vec<ScheduleLeg>,
}

impl View for Schedule {
    type V = Seq<LegView>;

    /// What the legs hold, in order.
    open spec fn view(&self) -> Seq<LegView> {
        self.legs@.map_values(|leg: ScheduleLeg| leg@)
    }
}

impl Clone for Schedule {
    fn clone(&self) -> (res: Schedule)
        ensures
            res@ == self@,
    {
        let mut legs: Vec<ScheduleLeg> = Vec::new();
        let mut i: usize = 0;
        while i < self.legs.len()
            invariant
                i <= self.legs@.len(),
                legs@.len() == i,
                forall|j: int| 0 <= j < i ==> legs@[j]@ == self.legs@[j]@,
            decreases self.legs@.len() - i,
        {
            legs.push(self.legs[i].clone());
            i += 1;
        }
        let res = Schedule { legs };
        assert(res@ =~= self@);
        res
    }
}

impl Schedule {
    pub fn new(legs: Vec<ScheduleLeg>) -> (res: Schedule)
        ensures
            res.legs == legs,
    {
        Schedule { legs }
    }

    /// The leg that counts on `day` at `time`: the first that holds.
    pub fn active_leg_at(&self, day: Weekday, time: TimeOfDay) -> (res: Option<&ScheduleLeg>)
        ensures
            match active_leg(self@, day, time@) {
                Some(active) => res matches Some(leg) && leg@ == active,
                None => res is None,
            },
    {
        let mut i: usize = 0;
        while i < self.legs.len()
            invariant
                i <= self.legs@.len(),
                forall|j: int| 0 <= j < i ==> !(#[trigger] self@[j]).covers(day, time@),
            decreases self.legs@.len() - i,
        {
            if self.legs[i].is_active(day, time) {
                proof {
                    lemma_active_leg_skip(self@, day, time@, i as int);
                    assert(self@.skip(i as int)[0] == self@[i as int]);
                }
                return Some(&self.legs[i]);
            }
            i += 1;
        }
        proof {
            lemma_active_leg_skip(self@, day, time@, i as int);
        }
        None
    }

    /// The leg that counts at the instant `current_datetime`, by the weekday
    /// and the time of day that the instant has in the machine's time zone.
    ///
    /// No leg counts at an instant that the calendar cannot place.
    pub fn get_active_leg(&self, current_datetime: Timestamp) -> (res: Option<&ScheduleLeg>)
        ensures
            !current_datetime.has_local_time() ==> res is None,
            current_datetime.has_local_time() ==> exists|day: Weekday, time: int|
                {
                    &&& 0 <= time < SECONDS_PER_DAY
                    &&& match #[trigger] active_leg(self@, day, time) {
                        Some(active) => res matches Some(leg) && leg@ == active,
                        None => res is None,
                    }
                },
            res matches Some(leg) ==> self@.contains(leg@),
    {
        match current_datetime.local_time() {
            Some((day, time)) => {
                let res = self.active_leg_at(day, time);
                proof {
                    lemma_active_leg_is_first(self@, day, time@);
                }
                res
            },
            None => None,
        }
    }
}

/// The two bands of a pair of setpoints, in tenths of a degree, each from
/// its first temperature to its last mark, and each end limited to what a
/// temperature can hold: first the band of `min`, then the band of `max`.
pub open spec fn hold_bands(min: int, max: int) -> ((int, int), (int, int)) {
    (
        (clamp_tenths(min - BAND_ABOVE), clamp_tenths(min + BAND_BELOW)),
        (clamp_tenths(max - BAND_BELOW), clamp_tenths(max + BAND_ABOVE)),
    )
}

/// The two bands that a pair of ranges stands for.
pub open spec fn bands_of(ranges: (Range<Temperature<F>>, Range<Temperature<F>>)) -> (
    (int, int),
    (int, int),
) {
    ((ranges.0.start@, ranges.0.end@), (ranges.1.start@, ranges.1.end@))
}

/// The bands of a pair of setpoints: around `min_temp` from 0.9 degrees
/// under it to 0.5 over it, around `max_temp` from 0.5 degrees under it to
/// 0.9 over it.
pub fn hold_ranges(min_temp: Temperature<F>, max_temp: Temperature<F>) -> (res: (
    Range<Temperature<F>>,
    Range<Temperature<F>>,
))
    ensures
        bands_of(res) == hold_bands(min_temp@, max_temp@),
{
    let min: i32 = min_temp.0 as i32;
    let max: i32 = max_temp.0 as i32;
    (
        Range {
            start: Temperature::in_f(min - BAND_ABOVE),
            end: Temperature::in_f(min + BAND_BELOW),
        },
        Range {
            start: Temperature::in_f(max - BAND_BELOW),
            end: Temperature::in_f(max + BAND_ABOVE),
        },
    )
}

/// The setpoints, the schedule that may replace them, and the two overrides.
///
/// An override is in effect while its end lies after the instant asked
/// about. An end is kept in milliseconds since the Unix epoch, wide enough
/// for any instant moved by any span.
#[derive(Debug)]
pub struct Config {
    pub max_temp: Temperature<F>,
    pub min_temp: Temperature<F>,
    pub hold_end: Option<i128>,
    pub fan_end: Option<i128>,
    pub schedule: Schedule,
}

/// What a configuration holds, with temperatures in tenths of a degree and
/// instants in milliseconds since the Unix epoch.
pub struct ConfigView {
    pub max_temp: int,
    pub min_temp: int,
    /// The end of the hold override, where it is set.
    pub hold_end: Option<int>,
    /// The end of the fan override, where it is set.
    pub fan_end: Option<int>,
    pub schedule: Seq<LegView>,
}

impl ConfigView {
    /// Whether the fan override is in effect at the instant `time`.
    pub open spec fn fan_on_at(self, time: int) -> bool {
        self.fan_end matches Some(end) && time < end
    }

    /// Whether the hold override is in effect at the instant `time`.
    pub open spec fn hold_at(self, time: int) -> bool {
        self.hold_end matches Some(end) && time < end
    }

    /// This configuration with the hold override put in effect from `now`
    /// until `timeout` later.
    pub open spec fn with_hold(self, timeout: int, now: int) -> ConfigView {
        ConfigView { hold_end: Some(now + timeout), ..self }
    }

    /// This configuration with the fan override put in effect from `now`
    /// until `timeout` later.
    pub open spec fn with_fan_on(self, timeout: int, now: int) -> ConfigView {
        ConfigView { fan_end: Some(now + timeout), ..self }
    }

    /// The setpoints that count on `day` at `time` seconds after local
    /// midnight, lower one first: those of the active leg, or else the
    /// configuration's own.
    pub open spec fn setpoints(self, day: Weekday, time: int) -> (int, int) {
        match active_leg(self.schedule, day, time) {
            Some(leg) => (leg.min_temp, leg.max_temp),
            None => (self.min_temp, self.max_temp),
        }
    }

    /// The two bands that count on `day` at `time` seconds after local
    /// midnight.
    pub open spec fn bands(self, day: Weekday, time: int) -> ((int, int), (int, int)) {
        hold_bands(self.setpoints(day, time).0, self.setpoints(day, time).1)
    }

    /// The two bands of the configuration's own setpoints.
    pub open spec fn base_bands(self) -> ((int, int), (int, int)) {
        hold_bands(self.min_temp, self.max_temp)
    }
}

impl View for Config {
    type V = ConfigView;

    open spec fn view(&self) -> ConfigView {
        ConfigView {
            max_temp: self.max_temp@,
            min_temp: self.min_temp@,
            hold_end: match self.hold_end {
                Some(end) => Some(end as int),
                None => None,
            },
            fan_end: match self.fan_end {
                Some(end) => Some(end as int),
                None => None,
            },
            schedule: self.schedule@,
        }
    }
}

impl Clone for Config {
    fn clone(&self) -> (res: Config)
        ensures
            res@ == self@,
    {
        Config {
            max_temp: self.max_temp,
            min_temp: self.min_temp,
            hold_end: self.hold_end,
            fan_end: self.fan_end,
            schedule: self.schedule.clone(),
        }
    }
}

impl Config {
    /// A configuration with the two setpoints, no schedule and no override.
    pub fn new(max_temp: Temperature<F>, min_temp: Temperature<F>) -> (res: Config)
        ensures
            res@ == (ConfigView {
                max_temp: max_temp@,
                min_temp: min_temp@,
                hold_end: None,
                fan_end: None,
                schedule: Seq::empty(),
            }),
    {
        let res = Config {
            max_temp,
            min_temp,
            hold_end: None,
            fan_end: None,
            schedule: Schedule::new(vec![]),
        };
        assert(res@.schedule =~= Seq::empty());
        res
    }

    /// Puts the hold override in effect for `timeout` from the instant that
    /// the system clock shows.
    pub fn set_hold_mode(&mut self, timeout: Duration)
        ensures
            exists|now: int| final(self)@ == #[trigger] old(self)@.with_hold(timeout@, now),
    {
        let now = Timestamp::now();
        self.set_hold_mode_at(timeout, now);
    }

    /// Puts the hold override in effect from `now` until `timeout` later.
    pub fn set_hold_mode_at(&mut self, timeout: Duration, now: Timestamp)
        ensures
            final(self)@ == old(self)@.with_hold(timeout@, now@),
    {
        self.hold_end = Some(now.millis as i128 + timeout.millis as i128);
    }

    /// Puts the fan override in effect for `timeout` from the instant that
    /// the system clock shows.
    pub fn set_fan_on(&mut self, timeout: Duration)
        ensures
            exists|now: int| final(self)@ == #[trigger] old(self)@.with_fan_on(timeout@, now),
    {
        let now = Timestamp::now();
        self.set_fan_on_at(timeout, now);
    }

    /// Puts the fan override in effect from `now` until `timeout` later.
    pub fn set_fan_on_at(&mut self, timeout: Duration, now: Timestamp)
        ensures
            final(self)@ == old(self)@.with_fan_on(timeout@, now@),
    {
        self.fan_end = Some(now.millis as i128 + timeout.millis as i128);
    }

    pub fn cancel_hold_mode(&mut self)
        ensures
            final(self)@ == (ConfigView { hold_end: None, ..old(self)@ }),
    {
        self.hold_end = None
    }

    pub fn cancel_fan_mode(&mut self)
        ensures
            final(self)@ == (ConfigView { fan_end: None, ..old(self)@ }),
    {
        self.fan_end = None
    }

    /// Whether the fan override is in effect at `time`.
    pub fn is_fan_on(&self, time: Timestamp) -> (res: bool)
        ensures
            res == self@.fan_on_at(time@),
    {
        match self.fan_end {
            Some(fan_end) => (time.millis as i128) < fan_end,
            None => false,
        }
    }

    /// Whether the hold override is in effect at `time`.
    pub fn is_hold_mode(&self, time: Timestamp) -> (res: bool)
        ensures
            res == self@.hold_at(time@),
    {
        match self.hold_end {
            Some(hold_end) => (time.millis as i128) < hold_end,
            None => false,
        }
    }

    /// The two bands that count on `day` at `time`: first the band of the
    /// lower setpoint, then the band of the upper one.
    pub fn temp_ranges_at(&self, day: Weekday, time: TimeOfDay) -> (res: (
        Range<Temperature<F>>,
        Range<Temperature<F>>,
    ))
        ensures
            bands_of(res) == self@.bands(day, time@),
    {
        match self.schedule.active_leg_at(day, time) {
            Some(active_leg) => hold_ranges(active_leg.min_temp, active_leg.max_temp),
            None => hold_ranges(self.min_temp, self.max_temp),
        }
    }

    /// The two bands that count at the instant `time`, by the weekday and the
    /// time of day that it has in the machine's time zone: first the band of
    /// the lower setpoint, then the band of the upper one.
    ///
    /// At an instant that the calendar cannot place, the schedule is passed
    /// over.
    pub fn get_temp_ranges(&self, time: Timestamp) -> (res: (
        Range<Temperature<F>>,
        Range<Temperature<F>>,
    ))
        ensures
            !time.has_local_time() ==> bands_of(res) == self@.base_bands(),
            time.has_local_time() ==> exists|day: Weekday, seconds: int|
                0 <= seconds < SECONDS_PER_DAY && bands_of(res) == #[trigger] self@.bands(
                    day,
                    seconds,
                ),
            self@.schedule.len() == 0 ==> bands_of(res) == self@.base_bands(),
    {
        match time.local_time() {
            Some((day, seconds)) => {
                let res = self.temp_ranges_at(day, seconds);
                assert(bands_of(res) == self@.bands(day, seconds@));
                res
            },
            None => hold_ranges(self.min_temp, self.max_temp),
        }
    }

    pub fn set_schedule(&mut self, schedule: Schedule)
        ensures
            final(self)@ == (ConfigView { schedule: schedule@, ..old(self)@ }),
    {
        self.schedule = schedule;
    }
}

/// The fan override is in effect from the moment it is set until `timeout`
/// has passed, and not from then on.
pub proof fn lemma_fan_override_expires(config: ConfigView, timeout: int, now: int, time: int)
    ensures
        config.with_fan_on(timeout, now).fan_on_at(time) <==> time < now + timeout,
{
}

/// The hold override is in effect from the moment it is set until `timeout`
/// has passed, and not from then on.
pub proof fn lemma_hold_override_expires(config: ConfigView, timeout: int, now: int, time: int)
    ensures
        config.with_hold(timeout, now).hold_at(time) <==> time < now + timeout,
{
}

/// An override that is not set is never in effect.
pub proof fn lemma_unset_override_is_off(config: ConfigView, time: int)
    ensures
        config.fan_end is None ==> !config.fan_on_at(time),
        config.hold_end is None ==> !config.hold_at(time),
{
}

/// The setpoints of a leg count only where the leg holds, on one of its
/// days and within its time of day, and only where no leg before it holds;
/// where no leg holds, the configuration's own setpoints count.
pub proof fn lemma_schedule_resolution(config: ConfigView, day: Weekday, time: int)
    ensures
        match active_leg(config.schedule, day, time) {
            Some(leg) => {
                &&& exists|i: int| #[trigger]
                    is_first_active(config.schedule, i, day, time) && config.schedule[i] == leg
                &&& config.setpoints(day, time) == (leg.min_temp, leg.max_temp)
            },
            None => {
                &&& forall|i: int|
                    0 <= i < config.schedule.len() ==> !(#[trigger] config.schedule[i]).covers(
                        day,
                        time,
                    )
                &&& config.setpoints(day, time) == (config.min_temp, config.max_temp)
            },
        },
{
    lemma_active_leg_is_first(config.schedule, day, time);
}

/// With a single leg in the schedule, the leg's setpoints count exactly
/// where the leg holds, and the configuration's own everywhere else.
pub proof fn lemma_single_leg(config: ConfigView, day: Weekday, time: int)
    requires
        config.schedule.len() == 1,
    ensures
        config.setpoints(day, time) == if config.schedule[0].covers(day, time) {
            (config.schedule[0].min_temp, config.schedule[0].max_temp)
        } else {
            (config.min_temp, config.max_temp)
        },
{
    assert(active_leg(config.schedule.drop_first(), day, time) is None);
}

} // verus!
