//! A binary clock: the time of day as a grid of LEDs, one column per decimal
//! digit, one row per bit.

pub mod clock;
pub mod digits;
pub mod grid;
pub mod session;
