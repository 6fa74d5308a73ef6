//! A residential thermostat controller: a hysteresis evaluator, a
//! rate-limited actuator and the weekly schedule of setpoints that drive them.

pub mod ac_control;
pub mod control_loop;
pub mod controller;
pub mod sensors;
pub mod time;
pub mod uom;
pub mod platform;
