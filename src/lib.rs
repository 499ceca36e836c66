//! A bridge that lets a tool-invoking agent capture the window of the
//! running ghview application: the JSON values both protocols carry, the
//! local channel between the tool server and the application, the tool
//! protocol spoken on standard input and output, and the decisions of the
//! window capture.
pub mod json;
pub mod ipc;
pub mod text;
pub mod capture;
pub mod mcp;
pub mod models;
pub mod auth;
pub mod credential;
pub mod github;
