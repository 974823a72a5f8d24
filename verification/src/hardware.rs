//! The chips behind the command processor.

pub mod dac161s055;
pub mod lms6002d;
pub mod programming;
pub mod rational;
pub mod registers;
pub mod si5338;
pub mod tuning;
