//! Runs a compiled test artifact in a browser: serves it over HTTP, polls the
//! page for completion through a remote session, relays its console output
//! and turns its exit signal into a process exit code.
//!
//! The library holds the decisions; sockets, files and the remote session
//! belong to the program around it.

pub mod assets;
pub mod harness;
pub mod orchestrator;
pub mod poller;
pub mod probe;
pub mod server;
pub mod text;
