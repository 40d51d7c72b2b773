//! Board support for the Firestorm platform on the SAM4L chip: the start-up
//! memory image, the board's wiring, the driver table and the panic blinker.

pub mod blink;
pub mod board;
pub mod memory;
pub mod platform;
