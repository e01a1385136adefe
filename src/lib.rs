//! Tool-call lifecycle and incremental conversation patches for a coding-agent session.
pub mod status;
pub mod approval;
pub mod entry;
pub mod patch;
pub mod session;
pub mod profile;
pub mod command;
pub mod config;
