//! The decisions of a web bridge: an HTTP server that lets a browser use a desktop application.
//!
//! The library turns requests into plans and outcomes into replies. It does no I/O of its own; the
//! server around it reads, writes and sends what the plans say. Paths are slash-separated.

pub mod args;
pub mod assets;
pub mod command;
pub mod events;
pub mod headers;
pub mod json;
pub mod path;
pub mod percent;
pub mod proxy;
pub mod reply;
pub mod rpc;
pub mod server;
pub mod store;
pub mod text;
pub mod upload;
