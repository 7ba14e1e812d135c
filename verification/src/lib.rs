//! Drafting a commit message from a staged diff with the help of a chat model.
//!
//! The library holds every decision of the drafting pipeline: what is sent to
//! the model, how the streamed answer is put together, what is written where,
//! and how each failure ends the run. Reading files, running child processes
//! and talking to the network are left to the caller.

pub mod text;
pub mod error;
pub mod outcome;
pub mod config;
pub mod stream;
pub mod git;
pub mod draft;
pub mod delivery;
pub mod pipeline;
pub mod startup;
