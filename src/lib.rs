//! Driver logic for a serial-attached module that exchanges newline-delimited
//! JSON requests and responses over a byte link.
//!
//! The library decides; its caller performs the I/O. A transaction runs as:
//! resynchronize when the driver asks for it (`Notecard::begin_reset`, one
//! `ResetAttempt` per try, `Notecard::finish_reset`), load the encoded request
//! (`Notecard::load_request`), write the segments of `Notecard::plan_send`,
//! then feed each read to `Notecard::receive_chunk` until it reports the
//! response complete.

pub mod buffer;
pub mod config;
pub mod driver;
pub mod error;
pub mod hub;
pub mod receive;
pub mod reset;
pub mod transmit;

pub use config::Config;
pub use driver::{Notecard, SuspendState};
pub use error::Error;
