//! Units of measure.

pub mod temp;
