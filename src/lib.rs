//! The decisions of a command-line client for Sonos speakers.
//!
//! A run of one command is a [`Session`]: it starts with a first request
//! (discover the speakers, or look one up by its room name), and each reply
//! from the network gives the lines to print and the next request, until the
//! run finishes with success or with the error of the call that failed. The
//! network calls themselves are made by the program around this library.
pub mod command;
pub mod messages;
pub mod session;
pub mod text;

pub use command::{Command, RepeatMode, Request};
pub use session::{Next, Outcome, Reply, Session, Step};
pub use text::Line;
