//! The local channel between the tool server and the application.
pub mod protocol;
pub mod server;
pub mod client;
