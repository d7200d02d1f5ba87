//! Driver logic for ST7735 TFT display controllers on a serial bus.
//!
//! The driver turns drawing requests into the exact sequence of line changes,
//! bus writes and waits that the controller expects. Every operation returns
//! that sequence as a list of [`BusOp`] values; whoever owns the bus and the
//! two output lines performs them in order and stops at the first failure.

pub mod bus;
pub mod color;
pub mod display;
pub mod geometry;
pub mod instruction;
pub mod surface;
pub mod transfer;

pub use bus::BusOp;
pub use color::Color;
pub use display::{Orientation, ST7735};
pub use geometry::Rect;
pub use instruction::Instruction;
pub use surface::Pixel;
pub use transfer::Transfer;
