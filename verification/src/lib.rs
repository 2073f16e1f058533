//! Core of a small terminal emulator.
//!
//! The crate models the screen contents of a terminal as a grid of colored
//! character cells, parses the ANSI/VT escape sequences a shell emits into
//! discrete control tokens, and applies those tokens to the cursor, the
//! active drawing colors and the grid. It also carries the pure parts of the
//! pseudo-terminal session: decoding the raw byte stream and deciding, step
//! by step, what a session loop should do next. Everything here is plain
//! state and arithmetic; the process, window and GPU plumbing that feeds
//! this core lives outside it.

pub mod config;
pub mod decode;
pub mod display;
pub mod layout;
pub mod session;
pub mod terminal;
