//! Configuration updates as they come from outside, and how they are taken
//! into a configuration.

use crate::controller::config::{Config, ConfigView, LegView, Schedule, ScheduleLeg};
use crate::time::{clock_reading, weekday_numbered, Duration, TimeOfDay, Timestamp, Weekday};
use crate::uom::temp::{Temperature, F};
use std::ops::Range;
use vstd::prelude::*;

verus! {

/// One leg of a schedule as it comes from outside: the two times of day as
/// text on a 12-hour clock, such as `08:30 AM`, and the days as numbers
/// counted from Monday as 0.
#[derive(Debug)]
pub struct ScheduleUpdate {
    pub start: String,
    pub end: String,
    pub min_temp: Temperature<F>,
    pub max_temp: Temperature<F>,
    pub days: Vec<i8>,
}

/// A whole configuration as it comes from outside.
#[derive(Debug)]
pub struct ConfigUpdate {
    pub max_temp: Temperature<F>,
    pub min_temp: Temperature<F>,
    /// For how many hours from now the fan is to run.
    pub fan_duration_hours: i32,
    pub schedule: Vec<ScheduleUpdate>,
}

/// The `strftime` pattern of the times of day in an update: hour on a
/// 12-hour clock, minute, and AM or PM.
pub open spec fn time_format() -> Seq<char> {
    "%I:%M %p"@
}

/// The days that `days` names, in order. A number that names no day is
/// passed over.
pub open spec fn named_days(days: Seq<i8>) -> Seq<Weekday>
    decreases days.len(),
{
    if days.len() == 0 {
        Seq::empty()
    } else {
        let before = named_days(days.drop_last());
        match weekday_numbered(days.last() as int) {
            Some(day) => before.push(day),
            None => before,
        }
    }
}

/// The leg that `update` asks for, given what was read from its two times
/// of day: none unless both were read.
pub open spec fn leg_from(update: ScheduleUpdate, start: Option<u32>, end: Option<u32>) -> Option<
    LegView,
> {
    match (start, end) {
        (Some(start), Some(end)) => Some(
            LegView {
                min_temp: update.min_temp@,
                max_temp: update.max_temp@,
                weekdays: named_days(update.days@),
                start: start as int,
                end: end as int,
            },
        ),
        _ => None,
    }
}

/// The leg that `update` asks for.
pub open spec fn leg_asked(update: ScheduleUpdate) -> Option<LegView> {
    leg_from(
        update,
        clock_reading(update.start@, time_format()),
        clock_reading(update.end@, time_format()),
    )
}

/// The legs that `updates` ask for, in order. An update with a time of day
/// that cannot be read is passed over.
pub open spec fn legs_asked(updates: Seq<ScheduleUpdate>) -> Seq<LegView>
    decreases updates.len(),
{
    if updates.len() == 0 {
        Seq::empty()
    } else {
        let before = legs_asked(updates.drop_last());
        match leg_asked(updates.last()) {
            Some(leg) => before.push(leg),
            None => before,
        }
    }
}

/// The days that `days` names, in order.
pub fn weekdays_named(days: &Vec<i8>) -> (res: Vec<Weekday>)
    ensures
        res@ == named_days(days@),
{
    let mut res: Vec<Weekday> = Vec::new();
    let mut i: usize = 0;
    while i < days.len()
        invariant
            i <= days@.len(),
            res@ == named_days(days@.subrange(0, i as int)),
        decreases days@.len() - i,
    {
        proof {
            assert(days@.subrange(0, i + 1).drop_last() =~= days@.subrange(0, i as int));
        }
        match Weekday::from_i8(days[i]) {
            Some(day) => res.push(day),
            None => (),
        }
        i += 1;
    }
    proof {
        assert(days@.subrange(0, i as int) =~= days@);
    }
    res
}

/// The leg that `update` asks for, given what was read from its two times
/// of day.
pub fn leg_of(update: &ScheduleUpdate, start: Option<TimeOfDay>, end: Option<TimeOfDay>) -> (res:
    Option<ScheduleLeg>)
    ensures
        match (start, end) {
            (Some(start), Some(end)) => res matches Some(leg) && leg@ == leg_from(
                *update,
                Some(start.seconds),
                Some(end.seconds),
            )->0,
            _ => res is None,
        },
{
    match (start, end) {
        (Some(start), Some(end)) => Some(
            ScheduleLeg {
                min_temp: update.min_temp,
                max_temp: update.max_temp,
                active_range: Range { start, end },
                weekdays: weekdays_named(&update.days),
            },
        ),
        _ => None,
    }
}

/// The schedule that `schedules` ask for.
pub fn map_schedule(schedules: &Vec<ScheduleUpdate>) -> (res: Schedule)
    ensures
        res@ == legs_asked(schedules@),
{
    let mut legs: Vec<ScheduleLeg> = Vec::new();
    let mut i: usize = 0;
    while i < schedules.len()
        invariant
            i <= schedules@.len(),
            legs@.map_values(|leg: ScheduleLeg| leg@) == legs_asked(
                schedules@.subrange(0, i as int),
            ),
        decreases schedules@.len() - i,
    {
        let schedule = &schedules[i];
        let start = TimeOfDay::parse_from_str(schedule.start.as_str(), "%I:%M %p");
        let end = TimeOfDay::parse_from_str(schedule.end.as_str(), "%I:%M %p");
        let ghost before = legs@;
        proof {
            assert(schedules@.subrange(0, i + 1).drop_last() =~= schedules@.subrange(0, i as int));
        }
        match leg_of(schedule, start, end) {
            Some(leg) => {
                legs.push(leg);
                assert(legs@.map_values(|leg: ScheduleLeg| leg@) =~= before.map_values(
                    |leg: ScheduleLeg| leg@,
                ).push(leg@));
            },
            None => (),
        }
        i += 1;
    }
    proof {
        assert(schedules@.subrange(0, i as int) =~= schedules@);
    }
    Schedule::new(legs)
}

/// `config` after it has taken `update` at `now`: the setpoints and the
/// schedule of the update, the fan override in effect from `now` for the
/// hours of the update, and the hold override as it was.
pub open spec fn updated(config: ConfigView, update: ConfigUpdate, now: int) -> ConfigView {
    ConfigView {
        max_temp: update.max_temp@,
        min_temp: update.min_temp@,
        hold_end: config.hold_end,
        fan_end: Some(now + update.fan_duration_hours * 3_600_000),
        schedule: legs_asked(update.schedule@),
    }
}

/// Takes `config_dto` into `config` at the instant that the system clock shows.
pub fn update_config(config: &mut Config, config_dto: &ConfigUpdate)
    ensures
        exists|now: int| final(config)@ == #[trigger] updated(old(config)@, *config_dto, now),
{
    let now = Timestamp::now();
    update_config_at(config, config_dto, now);
}

/// Takes `config_dto` into `config` at `now`.
pub fn update_config_at(config: &mut Config, config_dto: &ConfigUpdate, now: Timestamp)
    ensures
        final(config)@ == updated(old(config)@, *config_dto, now@),
{
    config.max_temp = config_dto.max_temp;
    config.min_temp = config_dto.min_temp;
    config.set_fan_on_at(Duration::hours(config_dto.fan_duration_hours as i64), now);
    config.set_schedule(map_schedule(&config_dto.schedule));
}

} // verus!
