//! Native-process shell logic for a web-delivered desktop application.
//!
//! The crate models the pieces of the shell that carry real state and
//! ordering concerns: persisted settings and window geometry, deep-link
//! routing, the update state machine, and single-instance coordination.
//! The surrounding process (window creation, store file I/O, network)
//! drives these functions and performs the outside effects.

pub mod commands;
pub mod deeplink;
pub mod instance;
pub mod settings;
pub mod update;
pub mod window;
