//! The core of a terminal task manager: the task lifecycle, the task store's
//! document format, the selection model and the decisions of the control loop.
//!
//! Everything here works on plain values. Reading and writing the store file,
//! the terminal and the input thread belong to the program around this crate.

pub mod clock;
pub mod error;
pub mod events;
pub mod json;
pub mod laws;
pub mod menu;
pub mod order;
pub mod reading;
pub mod screen;
pub mod selection;
pub mod session;
pub mod state;
pub mod store;
pub mod task;
pub mod text;
pub mod writing;

pub use error::Error;
