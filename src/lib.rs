//! A local "buddy" profile bound to a remote conversational assistant.
//!
//! The library holds the decisions of the engine: which assistant to use or
//! create, which files to upload, delete or keep, which conversation to
//! reuse, and how a chat turn proceeds. Each of these is a small state
//! machine: the caller performs the action it names against the remote
//! service or the local disk and hands the outcome back as the next input.
pub mod bundle;
pub mod cmd;
pub mod config;
pub mod conv;
pub mod error;
pub mod event;
pub mod files;
pub mod instructions;
pub mod msg;
pub mod reply;
pub mod resolve;
pub mod run;
pub mod step;
pub mod sync;
pub mod text;
pub mod types;
pub mod upload;
