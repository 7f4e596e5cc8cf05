//! Verified core of a line-counting utility.
//!
//! The library holds the two pieces of the program that have logical content:
//! the rule that maps a file's bytes to its line count (`lines`), and the
//! controller state machine that maps user events to session-state changes and
//! side-effect commands (`controller`). Decimal rendering of counts, needed by
//! the controller's status and clipboard text, lives in `text`. All I/O (the
//! file dialog, reading the file, the clipboard, rendering) stays outside the
//! library, which only consumes and produces plain values.

pub mod controller;
pub mod lines;
pub mod text;
