//! The tool protocol that the agent speaks on standard input and output.
pub mod protocol;
pub mod server;
