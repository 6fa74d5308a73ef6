//! The compressor: cooling, heating and fan, each held for a minimum dwell
//! time after it changes.

use crate::time::{Duration, Timestamp};
use vstd::prelude::*;

verus! {

/// The dwell time of a new compressor: two minutes, in milliseconds.
pub const DEFAULT_DWELL_MILLIS: i64 = 120_000;

/// What the compressor is doing. The fan is apart from this.
#[derive(Clone, Copy, Debug, PartialEq, Eq, Structural)]
pub enum CompressorMode {
    Cool,
    HeatPump,
    Off,
}

/// The three lines that drive the hardware.
///
/// A line keeps the level that was last written to it, and a write to one
/// line leaves the other two alone. Whether the hardware followed is not
/// known and not modelled.
pub trait Switches {
    /// The level last written to the cooling line.
    spec fn cool(&self) -> bool;

    /// The level last written to the heating line.
    spec fn heat(&self) -> bool;

    /// The level last written to the fan line.
    spec fn fan(&self) -> bool;

    /// Writes `on` to the cooling line.
    fn set_cool(&mut self, on: bool)
        ensures
            final(self).cool() == on,
            final(self).heat() == old(self).heat(),
            final(self).fan() == old(self).fan(),
    ;

    /// Writes `on` to the heating line.
    fn set_heat(&mut self, on: bool)
        ensures
            final(self).cool() == old(self).cool(),
            final(self).heat() == on,
            final(self).fan() == old(self).fan(),
    ;

    /// Writes `on` to the fan line.
    fn set_fan(&mut self, on: bool)
        ensures
            final(self).cool() == old(self).cool(),
            final(self).heat() == old(self).heat(),
            final(self).fan() == on,
    ;
}

/// The state of a compressor, with instants and spans in milliseconds.
pub struct CompressorState {
    pub mode: CompressorMode,
    pub fan_on: bool,
    /// The least time between two changes of the mode, and between two of the fan.
    pub min_dwell: int,
    /// The first instant at which the mode may change again.
    pub next_mode_change: int,
    /// The first instant at which the fan may change again.
    pub next_fan_change: int,
    /// The level last written to the cooling line.
    pub cool_line: bool,
    /// The level last written to the heating line.
    pub heat_line: bool,
    /// The level last written to the fan line.
    pub fan_line: bool,
}

impl CompressorState {
    /// A compressor made at `now` over lines at the given levels: off, and
    /// free to change at once.
    pub open spec fn initial(now: int, cool_line: bool, heat_line: bool, fan_line: bool) -> Self {
        CompressorState {
            mode: CompressorMode::Off,
            fan_on: false,
            min_dwell: DEFAULT_DWELL_MILLIS as int,
            next_mode_change: now - DEFAULT_DWELL_MILLIS,
            next_fan_change: now - DEFAULT_DWELL_MILLIS,
            cool_line,
            heat_line,
            fan_line,
        }
    }

    /// Whether a request for `mode` at `now` changes the mode.
    pub open spec fn accepts_mode(self, mode: CompressorMode, now: int) -> bool {
        mode != self.mode && now >= self.next_mode_change
    }

    /// Whether a request for the fan to be `on` at `now` changes the fan.
    pub open spec fn accepts_fan(self, on: bool, now: int) -> bool {
        on != self.fan_on && now >= self.next_fan_change
    }

    /// The state after a request for `mode` at `now`.
    pub open spec fn set_mode(self, mode: CompressorMode, now: int) -> Self {
        if self.accepts_mode(mode, now) {
            CompressorState {
                mode,
                next_mode_change: now + self.min_dwell,
                cool_line: mode is Cool,
                heat_line: mode is HeatPump,
                ..self
            }
        } else {
            self
        }
    }

    /// The state after a request for the fan to be `on` at `now`.
    pub open spec fn set_fan_mode(self, on: bool, now: int) -> Self {
        if self.accepts_fan(on, now) {
            CompressorState {
                fan_on: on,
                next_fan_change: now + self.min_dwell,
                fan_line: on,
                ..self
            }
        } else {
            self
        }
    }
}

/// Once a request has changed the mode at `now`, no request made less than
/// the dwell time after `now` changes it again.
pub proof fn lemma_mode_dwell(
    state: CompressorState,
    mode: CompressorMode,
    now: int,
    again: CompressorMode,
    later: int,
)
    requires
        state.accepts_mode(mode, now),
        later < now + state.min_dwell,
    ensures
        state.set_mode(mode, now).set_mode(again, later) == state.set_mode(mode, now),
{
}

/// Once a request has changed the fan at `now`, no request made less than the
/// dwell time after `now` changes it again.
pub proof fn lemma_fan_dwell(state: CompressorState, on: bool, now: int, again: bool, later: int)
    requires
        state.accepts_fan(on, now),
        later < now + state.min_dwell,
    ensures
        state.set_fan_mode(on, now).set_fan_mode(again, later) == state.set_fan_mode(on, now),
{
}

/// The mode and the fan do not hold each other up: whether a request for
/// one is let through does not depend on what was asked of the other, and
/// the two requests come to the same in either order.
pub proof fn lemma_axes_independent(
    state: CompressorState,
    mode: CompressorMode,
    mode_at: int,
    on: bool,
    fan_at: int,
)
    ensures
        state.set_mode(mode, mode_at).accepts_fan(on, fan_at) == state.accepts_fan(on, fan_at),
        state.set_fan_mode(on, fan_at).accepts_mode(mode, mode_at) == state.accepts_mode(
            mode,
            mode_at,
        ),
        state.set_mode(mode, mode_at).set_fan_mode(on, fan_at) == state.set_fan_mode(
            on,
            fan_at,
        ).set_mode(mode, mode_at),
{
}

/// A request for the mode that the compressor is in changes nothing, so it
/// uses up no dwell time: any request that would have been let through
/// without it, at the same instant or another, is let through after it, with
/// the same outcome.
pub proof fn lemma_same_mode_is_free(
    state: CompressorState,
    now: int,
    next: CompressorMode,
    next_at: int,
)
    ensures
        state.set_mode(state.mode, now) == state,
        state.set_mode(state.mode, now).accepts_mode(next, next_at) == state.accepts_mode(
            next,
            next_at,
        ),
        state.set_mode(state.mode, now).set_mode(next, next_at) == state.set_mode(next, next_at),
        state.accepts_mode(next, now) ==> state.set_mode(state.mode, now).set_mode(next, now).mode
            == next,
{
}

/// A request for the fan to be as it is changes nothing, so it uses up no
/// dwell time.
pub proof fn lemma_same_fan_is_free(state: CompressorState, now: int, next: bool, next_at: int)
    ensures
        state.set_fan_mode(state.fan_on, now) == state,
        state.set_fan_mode(state.fan_on, now).accepts_fan(next, next_at) == state.accepts_fan(
            next,
            next_at,
        ),
        state.set_fan_mode(state.fan_on, now).set_fan_mode(next, next_at) == state.set_fan_mode(
            next,
            next_at,
        ),
        state.accepts_fan(next, now) ==> state.set_fan_mode(state.fan_on, now).set_fan_mode(
            next,
            now,
        ).fan_on == next,
{
}

/// A new compressor lets the first request for another mode through, and
/// the first request for the fan, whenever they come after it was made.
pub proof fn lemma_initial_is_free(
    made_at: int,
    cool_line: bool,
    heat_line: bool,
    fan_line: bool,
    mode: CompressorMode,
    on: bool,
    now: int,
)
    requires
        made_at <= now,
    ensures
        mode != CompressorMode::Off ==> CompressorState::initial(
            made_at,
            cool_line,
            heat_line,
            fan_line,
        ).accepts_mode(mode, now),
        on ==> CompressorState::initial(made_at, cool_line, heat_line, fan_line).accepts_fan(
            on,
            now,
        ),
{
}

/// The compressor and its fan, over the switches that drive them.
pub struct Compressor<'a, S: Switches> {
    mode: CompressorMode,
    fan_mode: bool,
    min_duration: Duration,
    /// In milliseconds since the Unix epoch, and wide enough for any instant
    /// moved by any span.
    next_allowed_compressor_change: i128,
    next_allowed_fan_change: i128,
    switches: &'a mut S,
}

impl<'a, S: Switches> View for Compressor<'a, S> {
    type V = CompressorState;

    closed spec fn view(&self) -> CompressorState {
        CompressorState {
            mode: self.mode,
            fan_on: self.fan_mode,
            min_dwell: self.min_duration@,
            next_mode_change: self.next_allowed_compressor_change as int,
            next_fan_change: self.next_allowed_fan_change as int,
            cool_line: self.switches.cool(),
            heat_line: self.switches.heat(),
            fan_line: self.switches.fan(),
        }
    }
}

impl<'a, S: Switches> Compressor<'a, S> {
    /// A compressor over `switches`, made at the instant that the system
    /// clock shows. Nothing is written to the switches.
    pub fn new(switches: &'a mut S) -> (res: Compressor<'a, S>)
        ensures
            exists|now: int| #[trigger]
                CompressorState::initial(
                    now,
                    old(switches).cool(),
                    old(switches).heat(),
                    old(switches).fan(),
                ) == res@,
    {
        let now = Timestamp::now();
        Compressor::new_at(switches, now)
    }

    /// A compressor over `switches`, made at `now`. Nothing is written to the
    /// switches.
    pub fn new_at(switches: &'a mut S, now: Timestamp) -> (res: Compressor<'a, S>)
        ensures
            res@ == CompressorState::initial(
                now@,
                old(switches).cool(),
                old(switches).heat(),
                old(switches).fan(),
            ),
    {
        let min_duration = Duration::minutes(2);
        let free_since: i128 = now.millis as i128 - min_duration.millis as i128;
        Compressor {
            mode: CompressorMode::Off,
            fan_mode: false,
            min_duration,
            next_allowed_compressor_change: free_since,
            next_allowed_fan_change: free_since,
            switches,
        }
    }

    /// Sets the dwell time for the changes to come. A change that was made
    /// before keeps the dwell time that it was made with.
    pub fn set_min_change_duration(&mut self, min_duration: Duration)
        ensures
            final(self)@ == (CompressorState { min_dwell: min_duration@, ..old(self)@ }),
    {
        self.min_duration = min_duration;
    }

    /// Asks for `mode` at the instant that the system clock shows.
    pub fn set_mode(&mut self, mode: CompressorMode)
        ensures
            exists|now: int| #[trigger] old(self)@.set_mode(mode, now) == final(self)@,
            mode == old(self)@.mode ==> final(self)@ == old(self)@,
    {
        if mode == self.mode {
            assert(old(self)@.set_mode(mode, 0) == old(self)@);
            return ;
        }
        let now = Timestamp::now();
        self.set_mode_at(mode, now);
    }

    /// Asks for `mode` at `now`.
    ///
    /// The request changes nothing where the compressor is in `mode` already,
    /// and nothing where the mode last changed less than the dwell time
    /// before `now`. Otherwise the mode changes, the cooling and heating lines
    /// are written for it, and the next change has to wait for the dwell time.
    pub fn set_mode_at(&mut self, mode: CompressorMode, now: Timestamp)
        ensures
            final(self)@ == old(self)@.set_mode(mode, now@),
    {
        if mode == self.mode {
            return ;
        }
        if now.millis as i128 >= self.next_allowed_compressor_change {
            self.mode = mode;
            self.next_allowed_compressor_change = now.millis as i128
                + self.min_duration.millis as i128;
            let (cool, heat) = match mode {
                CompressorMode::Cool => (true, false),
                CompressorMode::HeatPump => (false, true),
                CompressorMode::Off => (false, false),
            };
            self.switches.set_cool(cool);
            self.switches.set_heat(heat);
        }
    }

    pub fn get_mode(&self) -> (res: CompressorMode)
        ensures
            res == self@.mode,
    {
        self.mode
    }

    /// Asks for the fan to be on or off at the instant that the system clock shows.
    pub fn set_fan_mode(&mut self, mode: bool)
        ensures
            exists|now: int| #[trigger] old(self)@.set_fan_mode(mode, now) == final(self)@,
            mode == old(self)@.fan_on ==> final(self)@ == old(self)@,
    {
        if mode == self.fan_mode {
            assert(old(self)@.set_fan_mode(mode, 0) == old(self)@);
            return ;
        }
        let now = Timestamp::now();
        self.set_fan_mode_at(mode, now);
    }

    /// Asks for the fan to be on or off at `now`.
    ///
    /// The request changes nothing where the fan is so already, and nothing
    /// where the fan last changed less than the dwell time before `now`.
    /// Otherwise the fan changes, the fan line is written, and the next
    /// change has to wait for the dwell time.
    pub fn set_fan_mode_at(&mut self, mode: bool, now: Timestamp)
        ensures
            final(self)@ == old(self)@.set_fan_mode(mode, now@),
    {
        if mode == self.fan_mode {
            return ;
        }
        if now.millis as i128 >= self.next_allowed_fan_change {
            self.fan_mode = mode;
            self.next_allowed_fan_change = now.millis as i128 + self.min_duration.millis as i128;
            self.switches.set_fan(mode);
        }
    }

    pub fn get_fan_mode(&mut self) -> (res: bool)
        ensures
            res == old(self)@.fan_on,
            final(self)@ == old(self)@,
    {
        self.fan_mode
    }
}

} // verus!
