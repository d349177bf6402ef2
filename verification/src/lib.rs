//! The decision logic of an SSH client session: which hosts to connect to and
//! in which order, how each hop is verified and authenticated, what is made of
//! a command's output, and which error every failure is reported as.
//!
//! The library itself neither connects to anything nor opens a file; of the
//! system it asks only for the user's home directory. Every operation that
//! alternates such work with decisions is a small state machine: it names the
//! next action, and is told what came of it.

pub mod auth;
pub mod command;
pub mod config;
pub mod error;
pub mod home;
pub mod hop;
pub mod host;
pub mod keys;
pub mod known_hosts;
pub mod method;
pub mod output;
pub mod route;
pub mod text;
