//! Verified core of the Kuren command-line client: configuration and session
//! decisions, key handling, handle validation and the text that the commands show.
pub mod text;
pub mod config;
pub mod grpc;
pub mod keys;
pub mod commands;
