use thermostat::ac_control::compressor::{Compressor, CompressorMode, Switches};
use thermostat::platform::memory::MemorySwitches;
use thermostat::time::{Duration, Timestamp};

/// Switches that write down every call, in order.
struct Recorder {
    calls: Vec<(&'static str, bool)>,
}

impl Recorder {
    fn last(&self, line: &str) -> bool {
        self.calls.iter().rev().find(|call| call.0 == line).map_or(false, |call| call.1)
    }
}

impl Switches for Recorder {
    fn cool(&self) -> bool {
        self.last("cool")
    }

    fn heat(&self) -> bool {
        self.last("heat")
    }

    fn fan(&self) -> bool {
        self.last("fan")
    }

    fn set_cool(&mut self, on: bool) {
        self.calls.push(("cool", on));
    }

    fn set_heat(&mut self, on: bool) {
        self.calls.push(("heat", on));
    }

    fn set_fan(&mut self, on: bool) {
        self.calls.push(("fan", on));
    }
}

fn at(millis: i64) -> Timestamp {
    Timestamp { millis }
}

#[test]
fn limits_compressor_changes_to_2_minutes_minimum() {
    let mut switches = MemorySwitches::new();
    let mut compressor = Compressor::new(&mut switches);

    compressor.set_mode(CompressorMode::Cool);
    compressor.set_mode(CompressorMode::Off);
    compressor.set_fan_mode(true);

    assert_eq!(compressor.get_mode(), CompressorMode::Cool);
    assert_eq!(compressor.get_fan_mode(), true);
}

#[test]
fn limits_fan_changes_to_2_minutes_minimum() {
    let mut switches = MemorySwitches::new();
    let mut compressor = Compressor::new(&mut switches);

    compressor.set_fan_mode(true);
    compressor.set_fan_mode(false);
    compressor.set_mode(CompressorMode::Cool);

    assert_eq!(compressor.get_mode(), CompressorMode::Cool);
    assert_eq!(compressor.get_fan_mode(), true);
}

#[test]
fn new_compressor_is_off_and_writes_nothing() {
    let mut switches = Recorder { calls: vec![] };
    {
        let mut compressor = Compressor::new(&mut switches);
        assert_eq!(compressor.get_mode(), CompressorMode::Off);
        assert_eq!(compressor.get_fan_mode(), false);
    }
    assert!(switches.calls.is_empty());
}

#[test]
fn mode_change_waits_for_the_dwell_time() {
    let mut switches = MemorySwitches::new();
    let mut compressor = Compressor::new_at(&mut switches, at(1_000_000));

    compressor.set_mode_at(CompressorMode::Cool, at(1_000_000));
    assert_eq!(compressor.get_mode(), CompressorMode::Cool);

    // one millisecond short of two minutes
    compressor.set_mode_at(CompressorMode::Off, at(1_119_999));
    assert_eq!(compressor.get_mode(), CompressorMode::Cool);

    // two minutes to the millisecond
    compressor.set_mode_at(CompressorMode::Off, at(1_120_000));
    assert_eq!(compressor.get_mode(), CompressorMode::Off);
}

#[test]
fn fan_change_waits_for_the_dwell_time() {
    let mut switches = MemorySwitches::new();
    let mut compressor = Compressor::new_at(&mut switches, at(0));

    compressor.set_fan_mode_at(true, at(5));
    assert_eq!(compressor.get_fan_mode(), true);
    compressor.set_fan_mode_at(false, at(120_004));
    assert_eq!(compressor.get_fan_mode(), true);
    compressor.set_fan_mode_at(false, at(120_005));
    assert_eq!(compressor.get_fan_mode(), false);
}

#[test]
fn rejected_request_is_not_queued() {
    let mut switches = MemorySwitches::new();
    let mut compressor = Compressor::new_at(&mut switches, at(0));

    compressor.set_mode_at(CompressorMode::Cool, at(0));
    compressor.set_mode_at(CompressorMode::HeatPump, at(1));
    // the dwell time is over, and nobody asks again
    compressor.set_mode_at(CompressorMode::Cool, at(500_000));
    assert_eq!(compressor.get_mode(), CompressorMode::Cool);
}

#[test]
fn fan_and_mode_do_not_hold_each_other_up() {
    let mut switches = MemorySwitches::new();
    let mut compressor = Compressor::new_at(&mut switches, at(0));

    compressor.set_mode_at(CompressorMode::Cool, at(10));
    compressor.set_fan_mode_at(true, at(10));
    assert_eq!(compressor.get_mode(), CompressorMode::Cool);
    assert_eq!(compressor.get_fan_mode(), true);

    compressor.set_mode_at(CompressorMode::Off, at(11));
    compressor.set_fan_mode_at(false, at(11));
    assert_eq!(compressor.get_mode(), CompressorMode::Cool);
    assert_eq!(compressor.get_fan_mode(), true);
}

#[test]
fn same_mode_uses_no_dwell_time() {
    let mut switches = MemorySwitches::new();
    let mut compressor = Compressor::new_at(&mut switches, at(0));

    compressor.set_mode_at(CompressorMode::Off, at(7));
    compressor.set_mode_at(CompressorMode::HeatPump, at(7));
    assert_eq!(compressor.get_mode(), CompressorMode::HeatPump);

    compressor.set_fan_mode_at(false, at(7));
    compressor.set_fan_mode_at(true, at(7));
    assert_eq!(compressor.get_fan_mode(), true);
}

#[test]
fn same_mode_on_the_clock_uses_no_dwell_time() {
    let mut switches = MemorySwitches::new();
    let mut compressor = Compressor::new(&mut switches);

    compressor.set_mode(CompressorMode::Off);
    compressor.set_mode(CompressorMode::Cool);
    assert_eq!(compressor.get_mode(), CompressorMode::Cool);
}

#[test]
fn switches_are_written_for_each_mode() {
    let mut switches = MemorySwitches::new();
    {
        let mut compressor = Compressor::new_at(&mut switches, at(0));
        compressor.set_min_change_duration(Duration::zero());
        compressor.set_mode_at(CompressorMode::Cool, at(1));
    }
    assert_eq!(switches, MemorySwitches { cool: true, heat: false, fan: false });
    {
        let mut compressor = Compressor::new_at(&mut switches, at(0));
        compressor.set_mode_at(CompressorMode::HeatPump, at(1));
        compressor.set_fan_mode_at(true, at(1));
    }
    assert_eq!(switches, MemorySwitches { cool: false, heat: true, fan: true });
    {
        let mut compressor = Compressor::new_at(&mut switches, at(0));
        compressor.set_min_change_duration(Duration::zero());
        compressor.set_mode_at(CompressorMode::Cool, at(1));
        compressor.set_mode_at(CompressorMode::Off, at(1));
        compressor.set_fan_mode_at(true, at(1));
        compressor.set_fan_mode_at(false, at(1));
    }
    assert_eq!(switches, MemorySwitches { cool: false, heat: false, fan: false });
}

#[test]
fn switches_are_written_only_when_something_changes() {
    let mut switches = Recorder { calls: vec![] };
    {
        let mut compressor = Compressor::new_at(&mut switches, at(0));
        compressor.set_mode_at(CompressorMode::Off, at(1));
        compressor.set_fan_mode_at(false, at(1));
        compressor.set_mode_at(CompressorMode::Cool, at(2));
        compressor.set_mode_at(CompressorMode::HeatPump, at(3));
        compressor.set_fan_mode_at(true, at(4));
        compressor.set_fan_mode_at(false, at(5));
    }
    assert_eq!(switches.calls, vec![("cool", true), ("heat", false), ("fan", true)]);
}

#[test]
fn changed_dwell_time_counts_for_later_changes() {
    let mut switches = MemorySwitches::new();
    let mut compressor = Compressor::new_at(&mut switches, at(0));

    compressor.set_mode_at(CompressorMode::Cool, at(0));
    compressor.set_min_change_duration(Duration::seconds(1));
    // the change at 0 was made with two minutes
    compressor.set_mode_at(CompressorMode::Off, at(60_000));
    assert_eq!(compressor.get_mode(), CompressorMode::Cool);
    compressor.set_mode_at(CompressorMode::Off, at(120_000));
    assert_eq!(compressor.get_mode(), CompressorMode::Off);
    compressor.set_mode_at(CompressorMode::Cool, at(120_999));
    assert_eq!(compressor.get_mode(), CompressorMode::Off);
    compressor.set_mode_at(CompressorMode::Cool, at(121_000));
    assert_eq!(compressor.get_mode(), CompressorMode::Cool);
}

#[test]
fn dwell_time_holds_at_the_ends_of_time() {
    let mut switches = MemorySwitches::new();
    let mut compressor = Compressor::new_at(&mut switches, at(i64::MIN));
    compressor.set_mode_at(CompressorMode::Cool, at(i64::MIN));
    assert_eq!(compressor.get_mode(), CompressorMode::Cool);

    compressor.set_min_change_duration(Duration::milliseconds(i64::MAX));
    compressor.set_mode_at(CompressorMode::Off, at(i64::MAX));
    assert_eq!(compressor.get_mode(), CompressorMode::Off);
    // the next change would be due after the last instant there is
    compressor.set_mode_at(CompressorMode::Cool, at(i64::MAX));
    assert_eq!(compressor.get_mode(), CompressorMode::Off);
}
