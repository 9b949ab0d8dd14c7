//! A sandboxed execution harness for command-style components, together
//! with the request contract of the chat component it was built to run.
//!
//! The harness side decides everything that can be decided on plain values:
//! which capabilities an instance is granted, how its compute budget is
//! accounted, which lifecycle transitions are legal and how a finished run is
//! classified. Driving the engine itself is left to the caller.

pub mod capabilities;
pub mod engine;
pub mod http;
pub mod instance;
pub mod limits;
pub mod outcome;
pub mod payload;
pub mod table;
