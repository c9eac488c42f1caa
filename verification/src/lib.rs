//! The decisions of a TCP tunnel agent: a proxy that exposes consumer ports, and a target that
//! forwards them to a backend.
//!
//! Every function here is free of input and output. The surrounding program performs the
//! actions that the state machines ask for and reports back what happened.

pub mod client;
pub mod command;
pub mod health;
pub mod random;
pub mod registry;
pub mod server;
pub mod shared;
pub mod text;
