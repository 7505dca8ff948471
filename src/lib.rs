//! Clipboard mirroring over TCP: the request codec and the per-connection
//! decisions of the server.
pub mod clipboard;
pub mod frame;
pub mod laws;
pub mod session;
