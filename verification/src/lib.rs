//! A focus-session library: a pausable countdown timer, a duration-string
//! parser, configuration merging, and the session coordinator's state
//! machine. Everything here is plain data and pure logic; reading the
//! clock, talking to the desktop services and all other I/O live in the
//! binary around this crate, which feeds the results in as plain values.

pub mod bars;
pub mod cli;
pub mod config;
pub mod display;
pub mod focus;
pub mod text;
pub mod timer;
