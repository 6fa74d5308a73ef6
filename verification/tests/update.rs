use thermostat::controller::config::Config;
use thermostat::controller::update::{
    leg_of, map_schedule, update_config, update_config_at, weekdays_named, ConfigUpdate,
    ScheduleUpdate,
};
use thermostat::time::{TimeOfDay, Timestamp, Weekday};
use thermostat::uom::temp::Temperature;

fn leg(start: &str, end: &str, min: i32, max: i32, days: Vec<i8>) -> ScheduleUpdate {
    ScheduleUpdate {
        start: start.to_string(),
        end: end.to_string(),
        min_temp: Temperature::in_f(min),
        max_temp: Temperature::in_f(max),
        days,
    }
}

fn summary(schedule: &thermostat::controller::config::Schedule) -> Vec<(i16, i16, Vec<Weekday>, u32, u32)> {
    schedule
        .legs
        .iter()
        .map(|leg| {
            (
                leg.min_temp.0,
                leg.max_temp.0,
                leg.weekdays.clone(),
                leg.active_range.start.seconds,
                leg.active_range.end.seconds,
            )
        })
        .collect()
}

#[test]
fn day_numbers_that_name_no_day_are_passed_over() {
    assert_eq!(weekdays_named(&vec![]), vec![]);
    assert_eq!(weekdays_named(&vec![0, 6]), vec![Weekday::Mon, Weekday::Sun]);
    assert_eq!(
        weekdays_named(&vec![7, 2, -1, 2, 100, 4, -128]),
        vec![Weekday::Wed, Weekday::Wed, Weekday::Fri]
    );
    assert_eq!(weekdays_named(&vec![5, 4, 3]), vec![Weekday::Sat, Weekday::Fri, Weekday::Thu]);
}

#[test]
fn leg_needs_both_times_of_day() {
    let update = leg("08:00 AM", "05:00 PM", 600, 850, vec![0, 9]);
    let start = TimeOfDay::from_hms(8, 0, 0);
    let end = TimeOfDay::from_hms(17, 0, 0);

    assert!(leg_of(&update, None, end).is_none());
    assert!(leg_of(&update, start, None).is_none());
    assert!(leg_of(&update, None, None).is_none());
    let made = leg_of(&update, start, end).unwrap();
    assert_eq!(made.min_temp.0, 600);
    assert_eq!(made.max_temp.0, 850);
    assert_eq!(made.weekdays, vec![Weekday::Mon]);
    assert_eq!(made.active_range.start.seconds, 28_800);
    assert_eq!(made.active_range.end.seconds, 61_200);
}

#[test]
fn schedule_keeps_the_legs_that_can_be_read() {
    let schedule = map_schedule(&vec![
        leg("08:00 AM", "05:00 PM", 600, 850, vec![0, 1, 2, 3, 4]),
        leg("8 in the morning", "05:00 PM", 1, 2, vec![0]),
        leg("10:00 PM", "11:30 PM", 650, 700, vec![5, 6, 7]),
        leg("10:00 PM", "25:00", 3, 4, vec![0]),
        leg("", "", 5, 6, vec![]),
        leg("12:00 AM", "12:00 PM", 610, 620, vec![]),
    ]);

    assert_eq!(
        summary(&schedule),
        vec![
            (
                600,
                850,
                vec![Weekday::Mon, Weekday::Tue, Weekday::Wed, Weekday::Thu, Weekday::Fri],
                28_800,
                61_200
            ),
            (650, 700, vec![Weekday::Sat, Weekday::Sun], 79_200, 84_600),
            (610, 620, vec![], 0, 43_200),
        ]
    );
}

#[test]
fn schedule_of_nothing_is_empty() {
    assert!(map_schedule(&vec![]).legs.is_empty());
    assert!(map_schedule(&vec![leg("x", "y", 0, 0, vec![1])]).legs.is_empty());
}

#[test]
fn update_replaces_setpoints_fan_and_schedule() {
    let mut config = Config::new(Temperature::in_f(770), Temperature::in_f(740));
    let now = Timestamp { millis: 1_000_000 };
    config.set_hold_mode_at(thermostat::time::Duration::seconds(5), now);
    let update = ConfigUpdate {
        max_temp: Temperature::in_f(790),
        min_temp: Temperature::in_f(700),
        fan_duration_hours: 2,
        schedule: vec![leg("08:00 AM", "05:00 PM", 600, 850, vec![0]), leg("?", "?", 0, 0, vec![])],
    };

    update_config_at(&mut config, &update, now);

    assert_eq!(config.max_temp.0, 790);
    assert_eq!(config.min_temp.0, 700);
    assert_eq!(config.fan_end, Some(1_000_000 + 7_200_000));
    assert_eq!(config.hold_end, Some(1_005_000));
    assert!(config.is_fan_on(Timestamp { millis: 8_199_999 }));
    assert!(!config.is_fan_on(Timestamp { millis: 8_200_000 }));
    assert_eq!(summary(&config.schedule), vec![(600, 850, vec![Weekday::Mon], 28_800, 61_200)]);
}

#[test]
fn update_without_fan_hours_leaves_the_fan_off() {
    let mut config = Config::new(Temperature::in_f(770), Temperature::in_f(740));
    config.set_fan_on_at(thermostat::time::Duration::hours(5), Timestamp { millis: 0 });
    let update = ConfigUpdate {
        max_temp: Temperature::in_f(790),
        min_temp: Temperature::in_f(700),
        fan_duration_hours: 0,
        schedule: vec![],
    };

    update_config_at(&mut config, &update, Timestamp { millis: 10 });
    assert!(!config.is_fan_on(Timestamp { millis: 10 }));

    let longest = ConfigUpdate { fan_duration_hours: i32::MAX, ..update };
    update_config_at(&mut config, &longest, Timestamp { millis: i64::MAX });
    assert!(config.is_fan_on(Timestamp { millis: i64::MAX }));
    let shortest = ConfigUpdate { fan_duration_hours: i32::MIN, ..longest };
    update_config_at(&mut config, &shortest, Timestamp { millis: i64::MIN });
    assert!(!config.is_fan_on(Timestamp { millis: i64::MIN }));
}

#[test]
fn update_on_the_clock_runs_the_fan_from_now() {
    let mut config = Config::new(Temperature::in_f(770), Temperature::in_f(740));
    let update = ConfigUpdate {
        max_temp: Temperature::in_f(790),
        min_temp: Temperature::in_f(700),
        fan_duration_hours: 1,
        schedule: vec![leg("09:15 AM", "09:45 AM", 600, 850, vec![3])],
    };

    let before = Timestamp::now();
    update_config(&mut config, &update);
    let after = Timestamp::now();

    assert_eq!(config.max_temp.0, 790);
    assert!(config.fan_end.unwrap() >= before.millis as i128 + 3_600_000);
    assert!(config.fan_end.unwrap() <= after.millis as i128 + 3_600_000);
    assert_eq!(summary(&config.schedule), vec![(600, 850, vec![Weekday::Thu], 33_300, 35_100)]);
}
