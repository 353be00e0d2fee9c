//! The core of a command-line client for schemas and their instances: raw
//! `key:value` fields are normalized, commands become requests, and the texts
//! that the client shows are rendered. Nothing here reads or writes anything.

pub mod command;
pub mod field;
pub mod paint;
pub mod preview;
pub mod text;
