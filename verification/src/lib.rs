//! A minimal pseudo-terminal (PTY) session bridge.
//!
//! The crate allocates a PTY pair with both ends marked close-on-exec,
//! prepares the environment and command bytes for an interactive child
//! session, decides how a background reader reacts to what the master
//! descriptor yields, and decodes terminal attribute bitmasks for
//! diagnostics.  Every decision the bridge makes is a verified function
//! here; the thin process plumbing around it lives outside the library.

pub mod args;
pub mod attributes;
pub mod environment;
pub mod errors;
pub mod hex;
pub mod lifecycle;
pub mod pty;
pub mod reader;
pub mod writer;
