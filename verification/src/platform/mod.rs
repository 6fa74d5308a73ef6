//! What stands between the controller and a machine.

pub mod linux;
pub mod memory;
