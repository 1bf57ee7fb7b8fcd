//! A countdown timer for the terminal.
//!
//! The crate holds the timer's state machine, the decisions of the loop that
//! drives it, and the text and colours of the frame that shows it. Drawing,
//! keyboard input and the desktop notification are left to the program that
//! uses the crate.

pub mod clock;
pub mod control;
pub mod frame;
pub mod laws;
pub mod model;
pub mod notificator;
pub mod ratio;
pub mod text;
pub mod timer;
