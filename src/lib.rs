//! A local gateway between HTTP handlers and one network-node worker thread.
//!
//! Handlers put commands on one shared queue, and read results back from two
//! result queues. The logic that builds commands and turns what came back into
//! a reply is verified here; the HTTP server and the worker live outside.
pub mod client;
pub mod command;
pub mod endpoints;
pub mod laws;
pub mod queue;
pub mod reply;
