//! Terminal line-discipline control with verified state handling.
//!
//! A [`Terminal`] session owns an input and an output endpoint, captures the
//! device's line-discipline snapshot at construction, stages and commits
//! changes to it, and restores the captured snapshot when the session ends.
//! ANSI colour sequences and a byte-at-a-time UTF-8 keystroke decoder are
//! provided alongside.

pub mod colour;
pub mod device;
pub mod mem;
pub mod session;
pub mod termios;
pub mod transform;
pub mod utf8;

pub use colour::Colour;
pub use device::{TermError, TermIn, TermOut};
pub use mem::{MemIn, MemOut};
pub use session::{Terminal, Transform};
pub use termios::Termios;
pub use transform::{Setting, TermTransform};
