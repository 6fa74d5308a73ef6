//! Switches that are kept in memory and drive nothing.

use crate::ac_control::compressor::Switches;
use vstd::prelude::*;

verus! {

/// Three lines that only remember the level last written to each.
#[derive(Clone, Copy, Debug, PartialEq, Eq, Structural)]
pub struct MemorySwitches {
    pub cool: bool,
    pub heat: bool,
    pub fan: bool,
}

impl MemorySwitches {
    /// Three lines, all low.
    pub fn new() -> (res: MemorySwitches)
        ensures
            res == (MemorySwitches { cool: false, heat: false, fan: false }),
    {
        MemorySwitches { cool: false, heat: false, fan: false }
    }
}

impl Switches for MemorySwitches {
    open spec fn cool(&self) -> bool {
        self.cool
    }

    open spec fn heat(&self) -> bool {
        self.heat
    }

    open spec fn fan(&self) -> bool {
        self.fan
    }

    fn set_cool(&mut self, on: bool) {
        self.cool = on;
    }

    fn set_heat(&mut self, on: bool) {
        self.heat = on;
    }

    fn set_fan(&mut self, on: bool) {
        self.fan = on;
    }
}

} // verus!
