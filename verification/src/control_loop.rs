//! The control loop, one iteration at a time.
//!
//! An iteration takes what the configuration channel holds, reads the
//! sensor, and lets the controller see the temperature and the time. What
//! the loop cannot do itself it leaves to its caller: to look into the
//! channel before, and to store, to publish and to sleep after.

use crate::ac_control::compressor::{Compressor, CompressorState, Switches};
use crate::controller::config::{Config, ConfigView};
use crate::controller::update::{update_config, update_config_at, updated, ConfigUpdate};
use crate::controller::{may_read, respond, status_in, Controller, Status};
use crate::sensors::{remembered, reported, TempListener, TempReader, TempSensor};
use crate::time::{TimeOfDay, Timestamp, Weekday};
use crate::uom::temp::{Temperature, F};
use vstd::prelude::*;

verus! {

/// What the configuration channel holds when the loop looks into it.
#[derive(Debug)]
pub enum Inbox {
    /// A new configuration has come.
    Update(ConfigUpdate),
    /// Nothing has come.
    Empty,
    /// Nothing will come any more: the other end is gone.
    Disconnected,
}

/// Why the loop cannot go on.
#[derive(Clone, Copy, Debug, PartialEq, Eq, Structural)]
pub enum LoopError {
    /// The source of configurations is gone.
    Disconnected,
}

/// What is left for the caller to do after an iteration.
#[derive(Clone, Copy, Debug)]
pub struct Outcome {
    /// Whether the update was taken, and is to be stored.
    pub save: bool,
    /// The temperature to publish, where the sensor had a new one.
    pub publish: Option<Temperature<F>>,
}

/// The state of the loop.
pub struct LoopState {
    pub config: ConfigView,
    pub compressor: CompressorState,
    /// The last reading of the sensor.
    pub last_temp: Option<Temperature<F>>,
}

/// The configuration after the loop has looked into the channel at `now`.
pub open spec fn received(config: ConfigView, inbox: Inbox, now: int) -> ConfigView {
    match inbox {
        Inbox::Update(update) => updated(config, update, now),
        _ => config,
    }
}

impl LoopState {
    /// The state after an iteration that finds `inbox` in the channel at
    /// `taken_at`, gets `reading` from the sensor and, where that is a new
    /// temperature, finds `status` for it and has the compressor asked for
    /// the mode at `mode_at`, and that has the compressor asked at `fan_at`
    /// for the fan as the override says for the instant `tick`.
    pub open spec fn step(
        self,
        inbox: Inbox,
        taken_at: int,
        reading: Option<Temperature<F>>,
        status: Status,
        mode_at: int,
        tick: int,
        fan_at: int,
    ) -> LoopState {
        let config = received(self.config, inbox, taken_at);
        let compressor = match reported(self.last_temp, reading) {
            Some(_) => respond(self.compressor, status, mode_at),
            None => self.compressor,
        };
        LoopState {
            config,
            compressor: compressor.set_fan_mode(config.fan_on_at(tick), fan_at),
            last_temp: remembered(self.last_temp, reading),
        }
    }

    /// The state after an iteration at `now`, on `day` at `time`, that finds
    /// `inbox` in the channel and gets `reading` from the sensor.
    pub open spec fn step_at(
        self,
        inbox: Inbox,
        reading: Option<Temperature<F>>,
        day: Weekday,
        time: int,
        now: int,
    ) -> LoopState {
        let status = match reading {
            Some(temp) => status_in(temp@, received(self.config, inbox, now).bands(day, time)),
            None => Status::Hold,
        };
        self.step(inbox, now, reading, status, now, now, now)
    }
}

/// What an iteration leaves for the caller to do.
pub open spec fn outcome_of(
    inbox: Inbox,
    last_temp: Option<Temperature<F>>,
    reading: Option<Temperature<F>>,
) -> Outcome {
    Outcome { save: inbox is Update, publish: reported(last_temp, reading) }
}

/// The loop: the configuration, the controller with its copy of it, and the
/// sensor.
pub struct ControlLoop<'a, 'b, S: Switches, R: TempReader> {
    config: Config,
    controller: Controller<'a, 'b, S>,
    temp_sensor: TempSensor<R>,
}

impl<'a, 'b, S: Switches, R: TempReader> View for ControlLoop<'a, 'b, S, R> {
    type V = LoopState;

    closed spec fn view(&self) -> LoopState {
        LoopState {
            config: self.config@,
            compressor: self.controller.compressor(),
            last_temp: self.temp_sensor.last_temp(),
        }
    }
}

impl<'a, 'b, S: Switches, R: TempReader> ControlLoop<'a, 'b, S, R> {
    /// Whether the controller goes by the configuration of the loop.
    pub closed spec fn wf(&self) -> bool {
        self.controller.config() == self.config@
    }

    /// A loop over `compressor` that goes by `config`, with the first
    /// reading of the sensor, which is for the caller to publish; there is
    /// none where the reading failed. The reading is not acted upon.
    pub fn start(compressor: &'a mut Compressor<'b, S>, config: Config) -> (res: (
        ControlLoop<'a, 'b, S, R>,
        Option<Temperature<F>>,
    ))
        ensures
            res.0.wf(),
            res.0@ == (LoopState {
                config: config@,
                compressor: old(compressor)@,
                last_temp: res.1,
            }),
    {
        let mut temp_sensor = TempSensor::<R>::new();
        let first = temp_sensor.get_updated_temp();
        let controller = Controller::new(compressor, config.clone());
        (ControlLoop { config, controller, temp_sensor }, first)
    }

    /// One iteration by the system clock.
    ///
    /// Where the channel is disconnected, the loop cannot go on and nothing
    /// is done. Otherwise an update, if there is one, is taken into the
    /// configuration and handed to the controller, and is to be stored; the
    /// sensor is read, and a new reading is shown to the controller and is to
    /// be published, while a reading that fails is passed over; and the
    /// controller is shown the time.
    pub fn iterate(&mut self, inbox: Inbox) -> (res: Result<Outcome, LoopError>)
        requires
            old(self).wf(),
        ensures
            final(self).wf(),
            inbox is Disconnected ==> res == Err::<Outcome, LoopError>(LoopError::Disconnected)
                && final(self)@ == old(self)@,
            !(inbox is Disconnected) ==> res is Ok && exists|
                taken_at: int,
                reading: Option<Temperature<F>>,
                status: Status,
                mode_at: int,
                tick: int,
                fan_at: int,
            |
                {
                    &&& final(self)@ == #[trigger] old(self)@.step(
                        inbox,
                        taken_at,
                        reading,
                        status,
                        mode_at,
                        tick,
                        fan_at,
                    )
                    &&& res == Ok::<Outcome, LoopError>(
                        outcome_of(inbox, old(self)@.last_temp, reading),
                    )
                    &&& reported(old(self)@.last_temp, reading) matches Some(temp) ==> may_read(
                        received(old(self)@.config, inbox, taken_at),
                        temp@,
                        status,
                    )
                },
    {
        let ghost before = self@;
        let ghost mut taken_at: int = 0;
        let save = match &inbox {
            Inbox::Update(update) => {
                update_config(&mut self.config, update);
                proof {
                    taken_at = choose|now: int|
                        self.config@ == #[trigger] updated(before.config, *update, now);
                }
                self.controller.update_config(self.config.clone());
                true
            },
            Inbox::Disconnected => {
                return Err(LoopError::Disconnected);
            },
            Inbox::Empty => false,
        };
        assert(self.config@ == received(before.config, inbox, taken_at));
        let ghost mut status = Status::Hold;
        let ghost mut mode_at: int = 0;
        let ghost last_temp = self.temp_sensor.last_temp();
        let publish = self.temp_sensor.get_updated_temp();
        let ghost reading = choose|reading: Option<Temperature<F>>|
            {
                &&& self.temp_sensor.last_temp() == #[trigger] remembered(last_temp, reading)
                &&& publish == reported(last_temp, reading)
            };
        if let Some(temp) = publish {
            let ghost unseen = self.controller;
            self.controller.on_temp_updated(temp);
            proof {
                let (found, at) = choose|found: Status, at: int|
                    may_read(unseen.config(), temp@, found) && self.controller.compressor()
                        == #[trigger] respond(unseen.compressor(), found, at);
                status = found;
                mode_at = at;
            }
        }
        let ghost shown = self.controller.compressor();
        let tick = Timestamp::now();
        self.controller.time_changed(tick);
        proof {
            let fan_at = choose|now: int|
                self.controller.compressor() == #[trigger] shown.set_fan_mode(
                    self.config@.fan_on_at(tick@),
                    now,
                );
            assert(self@ == before.step(inbox, taken_at, reading, status, mode_at, tick@, fan_at));
        }
        Ok(Outcome { save, publish })
    }

    /// One iteration at `now`, on `day` at `time`, with `reading` as what
    /// the sensor gives.
    pub fn iterate_at(
        &mut self,
        inbox: Inbox,
        reading: Option<Temperature<F>>,
        day: Weekday,
        time: TimeOfDay,
        now: Timestamp,
    ) -> (res: Result<Outcome, LoopError>)
        requires
            old(self).wf(),
        ensures
            final(self).wf(),
            inbox is Disconnected ==> res == Err::<Outcome, LoopError>(LoopError::Disconnected)
                && final(self)@ == old(self)@,
            !(inbox is Disconnected) ==> final(self)@ == old(self)@.step_at(
                inbox,
                reading,
                day,
                time@,
                now@,
            ) && res == Ok::<Outcome, LoopError>(outcome_of(inbox, old(self)@.last_temp, reading)),
    {
        let save = match &inbox {
            Inbox::Update(update) => {
                update_config_at(&mut self.config, update, now);
                self.controller.update_config(self.config.clone());
                true
            },
            Inbox::Disconnected => {
                return Err(LoopError::Disconnected);
            },
            Inbox::Empty => false,
        };
        let publish = match reading {
            Some(temp) => self.temp_sensor.observe(temp),
            None => None,
        };
        if let Some(temp) = publish {
            self.controller.temp_changed_at(temp, day, time, now);
        }
        self.controller.time_changed_at(now, now);
        Ok(Outcome { save, publish })
    }
}

} // verus!
