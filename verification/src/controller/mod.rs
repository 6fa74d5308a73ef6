//! The controller: from a temperature and the setpoints to a status, and
//! from the status to the compressor.

pub mod config;
pub mod update;

use crate::ac_control::compressor::{Compressor, CompressorMode, CompressorState, Switches};
use crate::controller::config::{
    bands_of, hold_bands, Config, ConfigView, BAND_ABOVE, BAND_BELOW,
};
use crate::sensors::TempListener;
use crate::time::{TimeOfDay, Timestamp, Weekday, SECONDS_PER_DAY};
use crate::uom::temp::{Temperature, F};
use std::ops::Range;
use vstd::prelude::*;

verus! {

/// How a temperature stands to the setpoints.
#[derive(Clone, Copy, Debug, PartialEq, Eq, Structural)]
pub enum Status {
    TooHot,
    TooCold,
    JustRight,
    /// Inside one of the two bands: the compressor stays as it is.
    Hold,
}

/// The status of `temp` against the two bands, each given by its first
/// temperature and its last mark, the band of the lower setpoint first.
pub open spec fn status_in(temp: int, bands: ((int, int), (int, int))) -> Status {
    let (min_range, max_range) = bands;
    if temp > max_range.1 {
        Status::TooHot
    } else if temp >= max_range.0 {
        Status::Hold
    } else if temp < min_range.0 {
        Status::TooCold
    } else if temp <= min_range.1 {
        Status::Hold
    } else {
        Status::JustRight
    }
}

/// The status of `temp` against the setpoints `min` and `max`, all in tenths
/// of a degree: too hot more than 0.9 over `max`, too cold more than 0.9
/// under `min`, held from 0.5 under `max` upward and up to 0.5 over `min`,
/// and just right between.
pub open spec fn status_of(temp: int, min: int, max: int) -> Status {
    if temp > max + BAND_ABOVE {
        Status::TooHot
    } else if temp >= max - BAND_BELOW {
        Status::Hold
    } else if temp < min - BAND_ABOVE {
        Status::TooCold
    } else if temp <= min + BAND_BELOW {
        Status::Hold
    } else {
        Status::JustRight
    }
}

/// The status against the bands of a pair of setpoints is the status against
/// the setpoints themselves: that the ends of a band are limited to what a
/// temperature can hold changes no status.
pub proof fn lemma_status_by_setpoints(
    temp: Temperature<F>,
    min_temp: Temperature<F>,
    max_temp: Temperature<F>,
)
    ensures
        status_in(temp@, hold_bands(min_temp@, max_temp@)) == status_of(
            temp@,
            min_temp@,
            max_temp@,
        ),
{
}

/// A temperature inside a band is held: from 0.5 under the upper setpoint
/// to 0.9 over it, and, below that, from 0.9 under the lower setpoint to
/// 0.5 over it. So a compressor that came on beyond a band stays on while
/// the temperature comes back through it.
pub proof fn lemma_bands_hold(temp: int, min: int, max: int)
    ensures
        max - BAND_BELOW <= temp <= max + BAND_ABOVE ==> status_of(temp, min, max)
            == Status::Hold,
        min - BAND_ABOVE <= temp <= min + BAND_BELOW && temp < max - BAND_BELOW ==> status_of(
            temp,
            min,
            max,
        ) == Status::Hold,
        status_of(temp, min, max) == Status::JustRight ==> min + BAND_BELOW < temp < max
            - BAND_BELOW,
{
}

/// Whether `status` is one that `temp` can have under `config`: against the
/// bands of the configuration's own setpoints, or against those that count
/// on some day at some time.
pub open spec fn may_read(config: ConfigView, temp: int, status: Status) -> bool {
    ||| status == status_in(temp, config.base_bands())
    ||| exists|day: Weekday, seconds: int|
        0 <= seconds < SECONDS_PER_DAY && status == status_in(
            temp,
            #[trigger] config.bands(day, seconds),
        )
}

/// The mode that a status asks for, if it asks for one.
pub open spec fn mode_for(status: Status) -> Option<CompressorMode> {
    match status {
        Status::TooHot => Some(CompressorMode::Cool),
        Status::TooCold => Some(CompressorMode::HeatPump),
        Status::JustRight => Some(CompressorMode::Off),
        Status::Hold => None,
    }
}

/// The compressor after the controller has seen `status` at `now`.
pub open spec fn respond(compressor: CompressorState, status: Status, now: int) -> CompressorState {
    match mode_for(status) {
        Some(mode) => compressor.set_mode(mode, now),
        None => compressor,
    }
}

/// The status of `temp` against the two bands.
pub fn classify(
    temp: Temperature<F>,
    min_range: &Range<Temperature<F>>,
    max_range: &Range<Temperature<F>>,
) -> (res: Status)
    ensures
        res == status_in(temp@, bands_of((*min_range, *max_range))),
{
    if temp.0 > max_range.end.0 {
        Status::TooHot
    } else if temp.0 >= max_range.start.0 {
        Status::Hold
    } else if temp.0 < min_range.start.0 {
        Status::TooCold
    } else if temp.0 <= min_range.end.0 {
        Status::Hold
    } else {
        Status::JustRight
    }
}

/// The controller over a compressor, with its own copy of the configuration.
pub struct Controller<'a, 'b, S: Switches> {
    config: Config,
    compressor: &'a mut Compressor<'b, S>,
}

impl<'a, 'b, S: Switches> Controller<'a, 'b, S> {
    /// The configuration that the controller goes by.
    pub closed spec fn config(&self) -> ConfigView {
        self.config@
    }

    /// The state of the compressor.
    pub closed spec fn compressor(&self) -> CompressorState {
        self.compressor@
    }

    pub fn new(compressor: &'a mut Compressor<'b, S>, config: Config) -> (res: Controller<
        'a,
        'b,
        S,
    >)
        ensures
            res.config() == config@,
            res.compressor() == old(compressor)@,
    {
        Controller { config, compressor }
    }

    /// Puts `config` in the place of the configuration held so far.
    pub fn update_config(&mut self, config: Config)
        ensures
            final(self).config() == config@,
            final(self).compressor() == old(self).compressor(),
    {
        self.config = config;
    }

    /// Takes a new temperature at the instant that the system clock shows:
    /// finds its status and asks the compressor for the mode that goes with
    /// it.
    pub fn temp_changed(&mut self, temp: Temperature<F>)
        ensures
            final(self).config() == old(self).config(),
            exists|status: Status, now: int|
                may_read(old(self).config(), temp@, status) && final(self).compressor() == #[trigger] respond(
                    old(self).compressor(),
                    status,
                    now,
                ),
    {
        let status = self.check_status(temp);
        self.dispatch(status);
    }

    /// Takes the temperature `temp` on `day` at `time`, at the instant `now`:
    /// finds its status and asks the compressor for the mode that goes with
    /// it.
    pub fn temp_changed_at(
        &mut self,
        temp: Temperature<F>,
        day: Weekday,
        time: TimeOfDay,
        now: Timestamp,
    )
        ensures
            final(self).config() == old(self).config(),
            final(self).compressor() == respond(
                old(self).compressor(),
                status_in(temp@, old(self).config().bands(day, time@)),
                now@,
            ),
    {
        let status = self.check_status_at(temp, day, time);
        self.dispatch_at(status, now);
    }

    /// Asks the compressor, at the instant that the system clock shows, for
    /// the mode that goes with `status`. A held status asks for nothing.
    pub fn dispatch(&mut self, status: Status)
        ensures
            final(self).config() == old(self).config(),
            exists|now: int|
                final(self).compressor() == #[trigger] respond(old(self).compressor(), status, now),
            status == Status::Hold ==> final(self).compressor() == old(self).compressor(),
    {
        match status {
            Status::TooHot => self.compressor.set_mode(CompressorMode::Cool),
            Status::TooCold => self.compressor.set_mode(CompressorMode::HeatPump),
            Status::JustRight => self.compressor.set_mode(CompressorMode::Off),
            Status::Hold => (),
        }
        proof {
            let before = old(self).compressor();
            match mode_for(status) {
                Some(mode) => {
                    let now = choose|now: int| #[trigger]
                        before.set_mode(mode, now) == self.compressor();
                    assert(respond(before, status, now) == self.compressor());
                },
                None => {
                    assert(respond(before, status, 0) == self.compressor());
                },
            }
        }
    }

    /// Asks the compressor at `now` for the mode that goes with `status`. A
    /// held status asks for nothing.
    pub fn dispatch_at(&mut self, status: Status, now: Timestamp)
        ensures
            final(self).config() == old(self).config(),
            final(self).compressor() == respond(old(self).compressor(), status, now@),
    {
        match status {
            Status::TooHot => self.compressor.set_mode_at(CompressorMode::Cool, now),
            Status::TooCold => self.compressor.set_mode_at(CompressorMode::HeatPump, now),
            Status::JustRight => self.compressor.set_mode_at(CompressorMode::Off, now),
            Status::Hold => (),
        }
    }

    /// Takes the instant `time`: asks the compressor, at the instant that the
    /// system clock shows, for the fan to be on exactly where the fan
    /// override is in effect at `time`.
    pub fn time_changed(&mut self, time: Timestamp)
        ensures
            final(self).config() == old(self).config(),
            exists|now: int|
                final(self).compressor() == #[trigger] old(self).compressor().set_fan_mode(
                    old(self).config().fan_on_at(time@),
                    now,
                ),
    {
        let fan_on = self.config.is_fan_on(time);
        self.compressor.set_fan_mode(fan_on);
    }

    /// Takes the instant `time`: asks the compressor at `now` for the fan to
    /// be on exactly where the fan override is in effect at `time`.
    pub fn time_changed_at(&mut self, time: Timestamp, now: Timestamp)
        ensures
            final(self).config() == old(self).config(),
            final(self).compressor() == old(self).compressor().set_fan_mode(
                old(self).config().fan_on_at(time@),
                now@,
            ),
    {
        let fan_on = self.config.is_fan_on(time);
        self.compressor.set_fan_mode_at(fan_on, now);
    }

    /// The status of `temp` at the instant that the system clock shows,
    /// against the bands that count then.
    pub fn check_status(&self, temp: Temperature<F>) -> (res: Status)
        ensures
            may_read(self.config(), temp@, res),
            self.config().schedule.len() == 0 ==> res == status_in(
                temp@,
                self.config().base_bands(),
            ),
    {
        let now = Timestamp::now();
        let (min_range, max_range) = self.config.get_temp_ranges(now);
        classify(temp, &min_range, &max_range)
    }

    /// The status of `temp` against the bands that count on `day` at `time`.
    pub fn check_status_at(&self, temp: Temperature<F>, day: Weekday, time: TimeOfDay) -> (res:
        Status)
        ensures
            res == status_in(temp@, self.config().bands(day, time@)),
    {
        let (min_range, max_range) = self.config.temp_ranges_at(day, time);
        classify(temp, &min_range, &max_range)
    }
}

impl<'a, 'b, S: Switches> TempListener for Controller<'a, 'b, S> {
    fn on_temp_updated(&mut self, temp: Temperature<F>)
        ensures
            final(self).config() == old(self).config(),
            exists|status: Status, now: int|
                may_read(old(self).config(), temp@, status) && final(self).compressor() == #[trigger] respond(
                    old(self).compressor(),
                    status,
                    now,
                ),
    {
        self.temp_changed(temp);
    }
}

} // verus!
