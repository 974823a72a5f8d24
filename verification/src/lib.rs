//! Control-plane driver for the bladeRF analog front end.
//!
//! The crate covers the fixed 16-byte command frames exchanged with the FPGA
//! command processor, the register facades of the transceiver, the clock
//! synthesizer and the trim DAC, the PLL tuning engine, and the rational
//! arithmetic behind the clock synthesizer's multisynth dividers.

pub mod backend;
pub mod bladerf;
pub mod board;
pub mod hardware;
pub mod nios;
