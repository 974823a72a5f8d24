//! Boards built around the command processor.

pub mod bladerf1;
