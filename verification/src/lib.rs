//! A Wayland session-lock screen, reduced to its core: the bridge that checks a
//! username and password against the system authentication stack on a worker,
//! relays the stack's informational and error messages to the interface thread
//! without blocking it, and reports exactly one final verdict per attempt.
//!
//! The modules here hold that bridge and the configuration logic; the windowing
//! front end that drives them lives outside the library.

pub mod args;
pub mod attempt;
pub mod auth;
pub mod backend;
pub mod blur;
pub mod config;
pub mod css;
