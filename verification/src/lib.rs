//! A bridge between a host that can only launch a short-lived program and read
//! its standard output, and a long-lived companion process that listens on a
//! local channel.
//!
//! The crate holds the protocol and the life cycle of one invocation: naming a
//! channel, the retry policy of the connector, the newline-delimited frames, the
//! arguments of the companion, and the dispatcher that turns the command line
//! into the steps a driver performs. It starts no process and opens no channel
//! itself: a driver executes each [`session::Action`] and reports what happened
//! as an [`session::Event`].

pub mod abi;
pub mod address;
pub mod command;
pub mod connector;
pub mod decimal;
pub mod error;
pub mod frame;
pub mod launcher;
pub mod session;
