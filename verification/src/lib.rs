//! The engine of a terminal browser for a package registry.
//!
//! Keys from the terminal and outcomes of searches arrive as one stream of
//! events. The session is a state machine over that stream: each event, read
//! in the active mode, changes the session and may ask the surroundings to
//! start a search or to copy a text.
//!
//! - [`session`] states the machine over plain values and proves what holds
//!   of every session.
//! - [`app`] holds the session of a running application and applies events
//!   to it as the machine says.
//! - [`input`] has the events and the monitor that turns keys into events.
//! - [`crates_io`] has what the registry is asked and what it answers.
//! - [`screen`] says what a frame shows.
//! - [`cli`] reads what the command line asks for.
//! - [`channel`] and [`strings`] state what is taken on trust from the
//!   channel and from the standard library.

pub mod app;
pub mod channel;
pub mod cli;
pub mod crates_io;
pub mod input;
pub mod screen;
pub mod session;
pub mod strings;
