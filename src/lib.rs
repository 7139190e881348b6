//! A transparent TCP traffic splitter.
//!
//! Every byte a client sends is copied to two backends, the primary and the
//! shadow. Only the primary's replies go back to the client; the shadow's are
//! read and dropped. This crate holds the decisions of that relay: admission
//! control, the per-direction frame pump, and the lifecycle of a session. The
//! sockets, threads and configuration file are driven by the program around it.

pub mod buffer;
pub mod config;
pub mod gate;
pub mod pump;
pub mod session;
