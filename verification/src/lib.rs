//! An event bridge between a native host process and the script contexts of
//! its webview windows.
//!
//! Script code registers and removes listeners through a host-held registry,
//! native code publishes named events with optional string payloads, and each
//! request is answered with the list of effects that the window layer has to
//! carry out.

pub mod bridge;
pub mod effect;
mod ident;
pub mod laws;
pub mod registry;
pub mod router;
pub mod script;
