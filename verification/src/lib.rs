//! Driver logic for the SSD1322 grayscale OLED controller.
//!
//! The crate is split along the three things the controller asks of a host:
//! encoding commands ([`instruction`]), packing 4-bit pixels into the layout
//! of the display RAM ([`frame`]) and sequencing the wires ([`session`], in
//! terms of the steps of [`bus`]).

pub mod bus;
pub mod error;
pub mod frame;
pub mod gray;
pub mod instruction;
pub mod session;

pub use error::Error;
pub use frame::{calculate_buffer_size, Frame};
pub use session::{Config, Orientation, SSD1322};
