//! Driver logic for SSD1306-family monochrome OLED controllers.
//!
//! The library turns display operations into the exact sequence of bus
//! actions the controller expects: data/command line levels, reset line
//! levels, chip-select levels, raw byte bursts and timed waits. Performing
//! those actions on real hardware is left to the caller.
pub mod bus;
pub mod command;
pub mod data;
pub mod error;
pub mod oled;

pub use bus::{BusOp, Line, Transport, DEFAULT_BUF_LIMIT};
pub use error::{OledSsd1306Result, OledSsd1306ResultError};
pub use oled::{page_count, Color, Image, Oled};
