//! Verified core of a Signal desktop attachment-export pipeline.
//!
//! The library locates a Signal installation from the host OS and home
//! directory, extracts the database key from the configuration document,
//! decodes per-message JSON documents into structured message content,
//! and resolves a file extension for each attachment's media type.
//! All I/O (environment, files, the encrypted database) lives in the
//! surrounding application; this crate holds the verified logic.

pub mod args;
pub mod config;
pub mod driver;
pub mod errors;
pub mod extension;
pub mod json;
pub mod locate;
pub mod message;
pub mod text;
