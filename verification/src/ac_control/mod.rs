//! Control of the air-conditioning hardware.

pub mod compressor;
